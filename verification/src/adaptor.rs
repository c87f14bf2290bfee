//! Adaptor signatures: a pre-signature that a secret completes, and whose completion reveals the
//! secret.

use vstd::arithmetic::div_mod::{
    lemma_add_mod_noop, lemma_mod_equivalence, lemma_mod_twice, lemma_small_mod, lemma_sub_mod_noop,
};
use vstd::prelude::*;

use crate::error::SwapError;
use crate::keys::{
    expected_point, is_xonly_key, lemma_negated, negated, point_of, point_sum, schnorr_valid,
    signature_nonce, signature_point, signature_scalar, PublicKey, SecretKey, XOnlyPublicKey,
};
use crate::musig::{
    adapted_nonce, aggregate_nonce, degenerate, honest_session, joined_shares, joins_honest_shares, lemma_stored_signs,
    lemma_tweak_fits_either_way, nonce_pair, nonce_pair_with_msg, nonce_scalars, partial_sign, partial_sign_and_join,
    share_of, signing_key, stored_for, tweak_fits, tweak_view, PartialSignature, PublicNonce,
    SecretNonce,
};
use crate::scalar::{
    curve_order, is_secret, lemma_order_fits, lemma_scalar_number, lemma_secret_is_scalar, number, scalar,
};

verus! {

/// The secret by which a pre-signature is completed.
#[derive(Clone, Copy)]
pub struct AdaptorSecret {
    key: SecretKey,
}

/// A signature that lacks an adaptor secret.
#[derive(Clone, Copy, Debug, PartialEq, Eq)]
pub struct AdaptorPreSignature {
    signature: [u8; 64],
}

/// The pre-signature of a BTC claim, with what it is verified against.
#[derive(Clone, Copy, Debug)]
pub struct BtcClaimAdaptorPackage {
    pub adaptor_point: PublicKey,
    pub aggregate_key: XOnlyPublicKey,
    pub sighash: [u8; 32],
    pub pre_signature: AdaptorPreSignature,
}

/// What the pre-signature of a BTC claim is.
#[verifier::ext_equal]
pub struct AdaptorView {
    pub adaptor_point: Seq<u8>,
    pub aggregate_key: Seq<u8>,
    pub sighash: Seq<u8>,
    pub pre_signature: Seq<u8>,
}

impl View for AdaptorSecret {
    type V = Seq<u8>;

    closed spec fn view(&self) -> Seq<u8> {
        self.key@
    }
}

impl View for AdaptorPreSignature {
    type V = Seq<u8>;

    closed spec fn view(&self) -> Seq<u8> {
        self.signature@
    }
}

impl View for BtcClaimAdaptorPackage {
    type V = AdaptorView;

    open spec fn view(&self) -> AdaptorView {
        AdaptorView {
            adaptor_point: self.adaptor_point@,
            aggregate_key: self.aggregate_key@,
            sighash: self.sighash@,
            pre_signature: self.pre_signature@,
        }
    }
}

/// The nonce of a signature.
pub open spec fn nonce_part(signature: Seq<u8>) -> Seq<u8> {
    signature.subrange(0, 32)
}

/// The scalar of a signature.
pub open spec fn scalar_part(signature: Seq<u8>) -> Seq<u8> {
    signature.subrange(32, 64)
}

/// Whether a point is what a pre-signature lacks: the point that a full signature needs is the
/// point of the scalar and `lacking`.
pub open spec fn lacks(pre_signature: Seq<u8>, key: Seq<u8>, message: Seq<u8>, lacking: Seq<u8>) -> bool {
    let have = point_of(scalar_part(pre_signature));
    &&& is_xonly_key(nonce_part(pre_signature))
    &&& is_secret(scalar_part(pre_signature))
    &&& signature_point(nonce_part(pre_signature), key, message) matches Some(need) && point_sum(need, negated(have))
        == Some(lacking) && point_sum(lacking, have) == Some(need)
}

/// Whether a pre-signature verifies against its adaptor point: it lacks the point, or where the
/// nonce was turned to its even side, the opposite one.
pub open spec fn adaptor_valid(package: AdaptorView) -> bool {
    ||| lacks(package.pre_signature, package.aggregate_key, package.sighash, package.adaptor_point)
    ||| lacks(package.pre_signature, package.aggregate_key, package.sighash, negated(package.adaptor_point))
}

/// The pre-signature with `offset` added to its scalar, unless the scalar vanishes.
pub open spec fn offset_signature(pre_signature: Seq<u8>, offset: int) -> Option<Seq<u8>> {
    let value = number(scalar_part(pre_signature)) + offset;
    if value % curve_order() as int == 0 {
        None
    } else {
        Some(nonce_part(pre_signature) + scalar(value))
    }
}

/// A pre-signature with what it is verified against.
pub open spec fn lacking_view(point: Seq<u8>, key: Seq<u8>, message: Seq<u8>, pre_signature: Seq<u8>) -> AdaptorView {
    AdaptorView { adaptor_point: point, aggregate_key: key, sighash: message, pre_signature }
}

/// Whether an optional signature is there and valid.
pub open spec fn signs(signature: Option<Seq<u8>>, message: Seq<u8>, key: Seq<u8>) -> bool {
    signature matches Some(found) && schnorr_valid(found, message, key)
}

/// The signature that a secret completes a pre-signature to: the one of scalar plus secret and
/// scalar minus secret that is valid.
pub open spec fn completed(package: AdaptorView, secret: Seq<u8>) -> Option<Seq<u8>> {
    let plus = offset_signature(package.pre_signature, number(secret) as int);
    let minus = offset_signature(package.pre_signature, -number(secret));
    if !is_secret(scalar_part(package.pre_signature)) {
        None
    } else if signs(plus, package.sighash, package.aggregate_key) {
        plus
    } else if signs(minus, package.sighash, package.aggregate_key) {
        minus
    } else {
        None
    }
}

/// The secret that a full signature reveals of a pre-signature: the difference of their scalars,
/// of the sign that has `point`.
pub open spec fn revealed(pre_signature: Seq<u8>, signature: Seq<u8>, point: Seq<u8>) -> Option<Seq<u8>> {
    let full = scalar_part(signature);
    let lacking = scalar_part(pre_signature);
    let difference = scalar(number(full) - number(lacking));
    let opposite = scalar(number(lacking) - number(full));
    if !is_secret(full) || !is_secret(lacking) || full == lacking {
        None
    } else if point_of(difference) == point {
        Some(difference)
    } else if point_of(opposite) == point {
        Some(opposite)
    } else {
        None
    }
}

/// Reducing a summand does not change the sum modulo the order of the curve.
proof fn lemma_scalar_shift(a: int, b: int)
    ensures
        scalar(a + number(scalar(b))) == scalar(a + b),
        (a + number(scalar(b))) % curve_order() as int == (a + b) % curve_order() as int,
        scalar(a - number(scalar(b))) == scalar(a - b),
        (a - number(scalar(b))) % curve_order() as int == (a - b) % curve_order() as int,
{
    lemma_order_fits();
    lemma_scalar_number(b);
    let order = curve_order() as int;
    lemma_add_mod_noop(a, b % order, order);
    lemma_add_mod_noop(a, b, order);
    lemma_mod_twice(b, order);
    lemma_sub_mod_noop(a, b % order, order);
    lemma_sub_mod_noop(a, b, order);
}

/// Two secrets whose numbers agree modulo the order of the curve are the same.
proof fn lemma_secrets_agree(a: Seq<u8>, b: Seq<u8>)
    requires
        is_secret(a),
        is_secret(b),
    ensures
        a == b <==> (number(a) - number(b)) % curve_order() as int == 0,
{
    lemma_order_fits();
    let order = curve_order() as int;
    lemma_small_mod(number(a), curve_order());
    lemma_small_mod(number(b), curve_order());
    lemma_mod_equivalence(number(a) as int, number(b) as int, order);
    lemma_secret_is_scalar(a);
    lemma_secret_is_scalar(b);
}

/// A scalar plus a secret reveals the secret.
proof fn lemma_sum_reveals(value: Seq<u8>, secret: Seq<u8>, full: Seq<u8>)
    requires
        is_secret(value),
        is_secret(secret),
        is_secret(full),
        full == scalar((number(value) + number(secret)) as int),
    ensures
        full != value,
        scalar(number(full) - number(value)) == secret,
{
    let s = number(value) as int;
    let t = number(secret) as int;
    lemma_scalar_shift(-s, s + t);
    lemma_secret_is_scalar(secret);
    lemma_secrets_agree(full, value);
    lemma_order_fits();
    lemma_small_mod(number(secret), curve_order());
}

/// A scalar minus a secret reveals the opposite of the secret.
proof fn lemma_difference_reveals(value: Seq<u8>, secret: Seq<u8>, full: Seq<u8>)
    requires
        is_secret(value),
        is_secret(secret),
        is_secret(full),
        full == scalar(number(value) - number(secret)),
    ensures
        full != value,
        scalar(number(full) - number(value)) == scalar(-number(secret)),
        scalar(number(value) - number(full)) == secret,
{
    let s = number(value) as int;
    let t = number(secret) as int;
    lemma_scalar_shift(-s, s - t);
    lemma_scalar_shift(s, s - t);
    lemma_secret_is_scalar(secret);
    lemma_secrets_agree(full, value);
    lemma_order_fits();
    lemma_small_mod(number(secret), curve_order());
    lemma_mod_equivalence(s, number(full) as int, curve_order() as int);
    lemma_mod_equivalence(number(full) as int, s, curve_order() as int);
}

/// A signature with another scalar.
fn with_scalar(signature: &[u8; 64], value: &SecretKey) -> (found: [u8; 64])
    ensures
        found@ == nonce_part(signature@) + value@,
        nonce_part(found@) == nonce_part(signature@),
        scalar_part(found@) == value@,
{
    let bytes = value.secret_bytes();
    let mut found = *signature;
    let mut i: usize = 0;
    while i < 32
        invariant
            i <= 32,
            forall|k: int| 0 <= k < i ==> found[k + 32] == bytes[k],
            forall|k: int| 0 <= k < 32 ==> found[k] == signature[k],
        decreases 32 - i,
    {
        found[i + 32] = bytes[i];
        i += 1;
    }
    assert(scalar_part(found@) =~= value@);
    assert(nonce_part(found@) =~= nonce_part(signature@));
    assert(found@ =~= nonce_part(signature@) + value@);
    found
}

impl AdaptorSecret {
    /// The adaptor secret of a secret key.
    pub fn new(key: SecretKey) -> (secret: AdaptorSecret)
        ensures
            secret@ == key@,
    {
        AdaptorSecret { key }
    }

    /// The adaptor point of this secret.
    pub fn point(&self) -> (point: PublicKey)
        ensures
            point@ == point_of(self@),
            point@.len() == 33,
    {
        self.key.public_key()
    }

    /// The secret key of this secret.
    pub fn secret_key(&self) -> (key: SecretKey)
        ensures
            key@ == self@,
    {
        self.key
    }
}

impl AdaptorPreSignature {
    /// The pre-signature of 64 bytes.
    pub fn new(signature: [u8; 64]) -> (found: AdaptorPreSignature)
        ensures
            found@ == signature@,
    {
        AdaptorPreSignature { signature }
    }

    /// The 64 bytes of this pre-signature.
    pub fn as_pre_signature(&self) -> (signature: [u8; 64])
        ensures
            signature@ == self@,
    {
        self.signature
    }

    /// Checks that this pre-signature lacks `point`.
    pub fn verify_adaptor(&self, point: &PublicKey, key: &XOnlyPublicKey, message: &[u8; 32]) -> (result: Result<
        (),
        SwapError,
    >)
        ensures
            result is Ok <==> lacks(self@, key@, message@, point@) || lacks(self@, key@, message@, negated(point@)),
            result matches Err(error) ==> error == SwapError::AdaptorMismatch,
    {
        let nonce = match XOnlyPublicKey::from_bytes(signature_nonce(&self.signature)) {
            Some(found) => found,
            None => return Err(SwapError::AdaptorMismatch),
        };
        let value = match SecretKey::from_bytes(signature_scalar(&self.signature)) {
            Some(found) => found,
            None => return Err(SwapError::AdaptorMismatch),
        };
        let need = match expected_point(&nonce, key, message) {
            Some(found) => found,
            None => return Err(SwapError::AdaptorMismatch),
        };
        let have = value.public_key();
        let lacking = match need.combine(&have.negate()) {
            Some(found) => found,
            None => return Err(SwapError::AdaptorMismatch),
        };
        proof {
            lemma_negated(have@);
        }
        if lacking.same(point) || lacking.same(&point.negate()) {
            Ok(())
        } else {
            Err(SwapError::AdaptorMismatch)
        }
    }

    /// The valid signature that `secret` completes this pre-signature to.
    fn finalize_with_secret(&self, secret: &AdaptorSecret, point: &PublicKey, key: &XOnlyPublicKey, message: &[u8; 32]) -> (signature: Result<
        [u8; 64],
        SwapError,
    >)
        ensures
            match signature {
                Ok(found) => completed(lacking_view(point@, key@, message@, self@), secret@) == Some(found@),
                Err(error) => completed(lacking_view(point@, key@, message@, self@), secret@) is None && error
                    == SwapError::AdaptorSecretMismatch,
            },
            adaptor_valid(lacking_view(point@, key@, message@, self@)) && point@ == point_of(secret@) ==> signature is Ok,
            signature matches Ok(found) ==> schnorr_valid(found@, message@, key@) && (point@ == point_of(secret@) ==> revealed(
                self@,
                found@,
                point@,
            ) == Some(secret@)),
    {
        let value = match SecretKey::from_bytes(signature_scalar(&self.signature)) {
            Some(found) => found,
            None => return Err(SwapError::AdaptorSecretMismatch),
        };
        let opposite = secret.key.negate();
        let own = secret.point();
        let sum = value.plus(&secret.key);
        let difference = value.plus(&opposite);
        proof {
            lemma_scalar_shift(number(value@) as int, -number(secret@));
            lemma_scalar_number((number(value@) + number(secret@)) as int);
            lemma_scalar_number(number(value@) - number(secret@));
            lemma_negated(own@);
        }
        match sum {
            Some(found) => {
                let signature = with_scalar(&self.signature, &found);
                proof {
                    lemma_sum_reveals(value@, secret@, found@);
                }
                if key.verifies(&signature, message) {
                    return Ok(signature);
                }
            },
            None => {},
        }
        match difference {
            Some(found) => {
                let signature = with_scalar(&self.signature, &found);
                proof {
                    lemma_difference_reveals(value@, secret@, found@);
                }
                if key.verifies(&signature, message) {
                    return Ok(signature);
                }
            },
            None => {},
        }
        Err(SwapError::AdaptorSecretMismatch)
    }
}

impl AdaptorPreSignature {
    /// The secret that a full signature reveals.
    pub fn recover_secret(&self, final_sig: &[u8; 64], point: &PublicKey) -> (secret: Result<AdaptorSecret, SwapError>)
        ensures
            match secret {
                Ok(found) => revealed(self@, final_sig@, point@) == Some(found@),
                Err(error) => revealed(self@, final_sig@, point@) is None && error == SwapError::SecretNotRevealed,
            },
            forall|key: Seq<u8>, message: Seq<u8>|
                #![trigger schnorr_valid(final_sig@, message, key)]
                adaptor_valid(lacking_view(point@, key, message, self@)) && schnorr_valid(final_sig@, message, key)
                    && nonce_part(final_sig@) == nonce_part(self@) && is_secret(scalar_part(final_sig@))
                    ==> secret is Ok,
    {
        let full = match SecretKey::from_bytes(signature_scalar(final_sig)) {
            Some(found) => found,
            None => return Err(SwapError::SecretNotRevealed),
        };
        let value = match SecretKey::from_bytes(signature_scalar(&self.signature)) {
            Some(found) => found,
            None => return Err(SwapError::SecretNotRevealed),
        };
        let have = point.serialize();
        proof {
            lemma_scalar_shift(number(full@) as int, -number(value@));
            lemma_secrets_agree(full@, value@);
            lemma_scalar_shift(0, number(full@) - number(value@));
            lemma_negated(have@);
        }
        let difference = match full.plus(&value.negate()) {
            Some(found) => found,
            None => return Err(SwapError::SecretNotRevealed),
        };
        proof {
            lemma_scalar_number(number(full@) - number(value@));
        }
        if difference.public_key().same(point) {
            return Ok(AdaptorSecret { key: difference });
        }
        let opposite = difference.negate();
        if opposite.public_key().same(point) {
            return Ok(AdaptorSecret { key: opposite });
        }
        Err(SwapError::SecretNotRevealed)
    }
}

impl BtcClaimAdaptorPackage {
    /// Checks the pre-signature against the adaptor point, the key and the sighash.
    pub fn verify(&self) -> (result: Result<(), SwapError>)
        ensures
            result is Ok <==> adaptor_valid(self@),
            result matches Err(error) ==> error == SwapError::AdaptorMismatch,
    {
        self.pre_signature.verify_adaptor(&self.adaptor_point, &self.aggregate_key, &self.sighash)
    }

    /// The claim signature that `secret` completes the pre-signature to.
    ///
    /// The secret of the adaptor point always completes a pre-signature that verifies, and the
    /// signature then reveals exactly this secret.
    pub fn finalize_with_secret(&self, secret: AdaptorSecret) -> (signature: Result<[u8; 64], SwapError>)
        ensures
            match signature {
                Ok(found) => adaptor_valid(self@) && completed(self@, secret@) == Some(found@) && schnorr_valid(
                    found@,
                    self@.sighash,
                    self@.aggregate_key,
                ),
                Err(error) => {
                    ||| !adaptor_valid(self@) && error == SwapError::AdaptorMismatch
                    ||| adaptor_valid(self@) && completed(self@, secret@) is None && error
                        == SwapError::AdaptorSecretMismatch
                },
            },
            adaptor_valid(self@) && self@.adaptor_point == point_of(secret@) ==> (signature matches Ok(found)
                && revealed(self@.pre_signature, found@, self@.adaptor_point) == Some(secret@)),
    {
        match self.verify() {
            Ok(()) => self.pre_signature.finalize_with_secret(
                &secret,
                &self.adaptor_point,
                &self.aggregate_key,
                &self.sighash,
            ),
            Err(error) => Err(error),
        }
    }

    /// The adaptor secret that a claim signature reveals.
    ///
    /// A valid signature with the nonce of a pre-signature that verifies always reveals one.
    pub fn recover_secret(&self, final_sig: [u8; 64]) -> (secret: Result<AdaptorSecret, SwapError>)
        ensures
            match secret {
                Ok(found) => schnorr_valid(final_sig@, self@.sighash, self@.aggregate_key) && revealed(
                    self@.pre_signature,
                    final_sig@,
                    self@.adaptor_point,
                ) == Some(found@) && point_of(found@) == self@.adaptor_point,
                Err(error) => {
                    ||| !schnorr_valid(final_sig@, self@.sighash, self@.aggregate_key) && error
                        == SwapError::ClaimSignatureInvalid
                    ||| schnorr_valid(final_sig@, self@.sighash, self@.aggregate_key) && revealed(
                        self@.pre_signature,
                        final_sig@,
                        self@.adaptor_point,
                    ) is None && error == SwapError::SecretNotRevealed
                },
            },
            adaptor_valid(self@) && schnorr_valid(final_sig@, self@.sighash, self@.aggregate_key) && nonce_part(final_sig@)
                == nonce_part(self@.pre_signature) && is_secret(scalar_part(final_sig@)) ==> secret is Ok,
    {
        if !self.aggregate_key.verifies(&final_sig, &self.sighash) {
            return Err(SwapError::ClaimSignatureInvalid);
        }
        self.pre_signature.recover_secret(&final_sig, &self.adaptor_point)
    }
}

/// Signs the Ark payer's share of a BTC claim with a given nonce, whose public part is offset by
/// the adaptor point.
pub fn sign_adaptor_partial_with_nonce(
    ark_payer: &SecretKey,
    btc_payer_pubkey: &PublicKey,
    btc_payer_public_nonce: &PublicNonce,
    sighash: [u8; 32],
    tap_tweak: Option<[u8; 32]>,
    adaptor_point: &PublicKey,
    stored_nonce: &[u8],
    plain_nonce: &PublicNonce,
) -> (signed: Result<(PublicNonce, PartialSignature), SwapError>)
    ensures
        match signed {
            Ok(found) => adaptor_share(
                ark_payer@,
                btc_payer_pubkey@,
                btc_payer_public_nonce@,
                sighash@,
                tweak_view(tap_tweak),
                adaptor_point@,
                stored_nonce@,
                plain_nonce@,
                found.0@,
                found.1@,
            ),
            Err(error) => {
                ||| nonce_scalars(stored_nonce@) is None && error == SwapError::InvalidSecretNonce
                ||| adapted_nonce(plain_nonce@, adaptor_point@) is None && error == SwapError::AdaptorNonceCancels
                ||| !tweak_fits(point_of(ark_payer@), btc_payer_pubkey@, tweak_view(tap_tweak)) && error
                    == SwapError::InvalidTweak
            },
        },
        signed is Ok <==> nonce_scalars(stored_nonce@) is Some && adapted_nonce(plain_nonce@, adaptor_point@) is Some
            && tweak_fits(point_of(ark_payer@), btc_payer_pubkey@, tweak_view(tap_tweak)),
{
    let nonce = match SecretNonce::from_stored(stored_nonce) {
        Ok(found) => found,
        Err(error) => return Err(error),
    };
    let public_nonce = match plain_nonce.adapted(adaptor_point) {
        Some(found) => found,
        None => return Err(SwapError::AdaptorNonceCancels),
    };
    match partial_sign(
        ark_payer,
        btc_payer_pubkey,
        btc_payer_public_nonce,
        &public_nonce,
        nonce,
        &sighash,
        tap_tweak,
    ) {
        Ok(share) => Ok((public_nonce, share)),
        Err(error) => Err(error),
    }
}

/// Whether a nonce and a share are what a party signs with a plain nonce, hiding `point` in its
/// public nonce.
pub open spec fn adaptor_share(
    secret: Seq<u8>,
    other: Seq<u8>,
    other_nonce: Seq<u8>,
    message: Seq<u8>,
    tweak: Option<Seq<u8>>,
    point: Seq<u8>,
    stored_nonce: Seq<u8>,
    plain_nonce: Seq<u8>,
    nonce: Seq<u8>,
    share: Seq<u8>,
) -> bool {
    &&& tweak_fits(point_of(secret), other, tweak)
    &&& adapted_nonce(plain_nonce, point) == Some(nonce)
    &&& nonce_scalars(stored_nonce) matches Some(scalars) && share == share_of(
        secret,
        other,
        aggregate_nonce(other_nonce, nonce),
        scalars,
        message,
        tweak,
    )
}

/// Whether a point cancels the first point of some nonce that can be drawn.
pub open spec fn some_nonce_cancels(point: Seq<u8>) -> bool {
    exists|stored: Seq<u8>, plain: Seq<u8>|
        #![trigger stored_for(stored, plain)]
        stored_for(stored, plain) && adapted_nonce(plain, point) is None
}

/// Signs the Ark payer's share of a BTC claim, hiding the adaptor point in its public nonce.
///
/// The BTC payer's ordinary nonce can be fixed before the funding and claim transactions are
/// known. The Ark payer's nonce is fresh for this exact claim; callers must persist and replay
/// this response instead of signing a changed transcript.
pub fn sign_cooperative_claim_adaptor_partial(
    ark_payer: &SecretKey,
    btc_payer_pubkey: &PublicKey,
    btc_payer_public_nonce: &PublicNonce,
    sighash: [u8; 32],
    tap_tweak: Option<[u8; 32]>,
    adaptor_point: &PublicKey,
) -> (signed: Result<(PublicNonce, PartialSignature), SwapError>)
    ensures
        match signed {
            Ok(found) => exists|stored: Seq<u8>, plain: Seq<u8>|
                #![trigger stored_for(stored, plain)]
                stored_for(stored, plain) && adaptor_share(
                    ark_payer@,
                    btc_payer_pubkey@,
                    btc_payer_public_nonce@,
                    sighash@,
                    tweak_view(tap_tweak),
                    adaptor_point@,
                    stored,
                    plain,
                    found.0@,
                    found.1@,
                ),
            Err(error) => {
                ||| error == SwapError::AdaptorNonceCancels && some_nonce_cancels(adaptor_point@)
                ||| error == SwapError::InvalidTweak && !tweak_fits(
                    point_of(ark_payer@),
                    btc_payer_pubkey@,
                    tweak_view(tap_tweak),
                )
            },
        },
{
    let (stored, plain) = nonce_pair_with_msg(ark_payer, &sighash);
    proof {
        lemma_stored_signs(stored@, plain@);
    }
    sign_adaptor_partial_with_nonce(
        ark_payer,
        btc_payer_pubkey,
        btc_payer_public_nonce,
        sighash,
        tap_tweak,
        adaptor_point,
        stored.as_slice(),
        &plain,
    )
}

/// The pre-signature of both shares of a BTC claim, with what it is verified against.
pub open spec fn joined_package(
    btc_payer: Seq<u8>,
    scalars: Seq<u8>,
    btc_public_nonce: Seq<u8>,
    ark_payer_pubkey: Seq<u8>,
    ark_public_nonce: Seq<u8>,
    ark_partial_sig: Seq<u8>,
    sighash: Seq<u8>,
    tap_tweak: Option<Seq<u8>>,
    adaptor_point: Seq<u8>,
) -> AdaptorView {
    AdaptorView {
        adaptor_point,
        aggregate_key: signing_key(point_of(btc_payer), ark_payer_pubkey, tap_tweak).subrange(1, 33),
        sighash,
        pre_signature: joined_shares(
            btc_payer,
            ark_payer_pubkey,
            aggregate_nonce(btc_public_nonce, ark_public_nonce),
            scalars,
            sighash,
            tap_tweak,
            ark_partial_sig,
        ),
    }
}

/// Joins the Ark payer's share with the BTC payer's own, and verifies the pre-signature.
///
/// Where both signed honestly for the adaptor point, the pre-signature verifies unless it is
/// degenerate.
pub fn build_cooperative_claim_adaptor_package_from_parts(
    btc_payer: &SecretKey,
    btc_secret_nonce: SecretNonce,
    btc_public_nonce: &PublicNonce,
    ark_payer_pubkey: &PublicKey,
    ark_public_nonce: &PublicNonce,
    ark_partial_sig: &PartialSignature,
    sighash: [u8; 32],
    tap_tweak: Option<[u8; 32]>,
    adaptor_point: &PublicKey,
) -> (package: Result<BtcClaimAdaptorPackage, SwapError>)
    ensures
        ({
            let fits = tweak_fits(point_of(btc_payer@), ark_payer_pubkey@, tweak_view(tap_tweak));
            let joined = joined_package(
                btc_payer@,
                btc_secret_nonce@,
                btc_public_nonce@,
                ark_payer_pubkey@,
                ark_public_nonce@,
                ark_partial_sig@,
                sighash@,
                tweak_view(tap_tweak),
                adaptor_point@,
            );
            match package {
                Ok(found) => fits && found@ == joined && adaptor_valid(joined),
                Err(error) => {
                    ||| !fits && error == SwapError::InvalidTweak
                    ||| fits && !adaptor_valid(joined) && error == SwapError::AdaptorMismatch
                },
            }
        }),
        tweak_fits(point_of(btc_payer@), ark_payer_pubkey@, tweak_view(tap_tweak)) ==> joins_honest_shares(
            btc_payer@,
            ark_payer_pubkey@,
            aggregate_nonce(btc_public_nonce@, ark_public_nonce@),
            btc_secret_nonce@,
            sighash@,
            tweak_view(tap_tweak),
            ark_partial_sig@,
            joined_package(
                btc_payer@,
                btc_secret_nonce@,
                btc_public_nonce@,
                ark_payer_pubkey@,
                ark_public_nonce@,
                ark_partial_sig@,
                sighash@,
                tweak_view(tap_tweak),
                adaptor_point@,
            ).pre_signature,
        ),
{
    match partial_sign_and_join(
        btc_payer,
        ark_payer_pubkey,
        btc_public_nonce,
        ark_public_nonce,
        btc_secret_nonce,
        &sighash,
        tap_tweak,
        ark_partial_sig,
    ) {
        Ok((signature, key)) => {
            let package = BtcClaimAdaptorPackage {
                adaptor_point: *adaptor_point,
                aggregate_key: key.x_only_public_key(),
                sighash,
                pre_signature: AdaptorPreSignature::new(signature),
            };
            match package.verify() {
                Ok(()) => Ok(package),
                Err(error) => Err(error),
            }
        },
        Err(error) => Err(error),
    }
}

/// Whether some honest session of two secrets gives a degenerate pre-signature.
pub open spec fn some_session_degenerates(
    btc_payer: Seq<u8>,
    ark_payer: Seq<u8>,
    sighash: Seq<u8>,
    tweak: Option<Seq<u8>>,
    point: Seq<u8>,
) -> bool {
    exists|
        btc_scalars: Seq<u8>,
        btc_nonce: Seq<u8>,
        share: Seq<u8>,
        ark_scalars: Seq<u8>,
        ark_plain: Seq<u8>,
        ark_nonce: Seq<u8>,
    | #[trigger]
        honest_session(
            btc_payer,
            point_of(ark_payer),
            aggregate_nonce(btc_nonce, ark_nonce),
            btc_scalars,
            sighash,
            tweak,
            share,
            ark_payer,
            ark_scalars,
            btc_nonce,
            ark_plain,
            ark_nonce,
            point,
        ) && degenerate(
            joined_shares(
                btc_payer,
                point_of(ark_payer),
                aggregate_nonce(btc_nonce, ark_nonce),
                btc_scalars,
                sighash,
                tweak,
                share,
            ),
            signing_key(point_of(btc_payer), point_of(ark_payer), tweak).subrange(1, 33),
            sighash,
        )
}

/// Signs both shares of a BTC claim and joins them.
///
/// It is refused where the key does not take the tweak, and only else where a nonce that was drawn
/// cancels the adaptor point or leads to a degenerate pre-signature.
pub fn build_cooperative_claim_adaptor_package(
    btc_payer: &SecretKey,
    ark_payer: &SecretKey,
    sighash: [u8; 32],
    tap_tweak: Option<[u8; 32]>,
    adaptor_point: &PublicKey,
) -> (package: Result<BtcClaimAdaptorPackage, SwapError>)
    ensures
        ({
            let fits = tweak_fits(point_of(btc_payer@), point_of(ark_payer@), tweak_view(tap_tweak));
            match package {
                Ok(found) => fits && adaptor_valid(found@) && found@.adaptor_point == adaptor_point@ && found@.sighash
                    == sighash@ && found@.aggregate_key == signing_key(
                    point_of(btc_payer@),
                    point_of(ark_payer@),
                    tweak_view(tap_tweak),
                ).subrange(1, 33),
                Err(error) => {
                    ||| error == SwapError::InvalidTweak && !fits
                    ||| error == SwapError::AdaptorNonceCancels && some_nonce_cancels(adaptor_point@)
                    ||| error == SwapError::AdaptorMismatch && fits && some_session_degenerates(
                        btc_payer@,
                        ark_payer@,
                        sighash@,
                        tweak_view(tap_tweak),
                        adaptor_point@,
                    )
                },
            }
        }),
{
    let (stored, btc_public_nonce) = nonce_pair(btc_payer);
    let btc_key = btc_payer.public_key();
    let ark_key = ark_payer.public_key();
    proof {
        lemma_stored_signs(stored@, btc_public_nonce@);
        lemma_tweak_fits_either_way(btc_key@, ark_key@, tweak_view(tap_tweak));
    }
    let (ark_public_nonce, ark_partial_sig) = match sign_cooperative_claim_adaptor_partial(
        ark_payer,
        &btc_key,
        &btc_public_nonce,
        sighash,
        tap_tweak,
        adaptor_point,
    ) {
        Ok(found) => found,
        Err(error) => return Err(error),
    };
    let btc_secret_nonce = match SecretNonce::from_stored(stored.as_slice()) {
        Ok(found) => found,
        Err(error) => return Err(error),
    };
    let ghost btc_scalars = btc_secret_nonce@;
    let point_bytes = adaptor_point.serialize();
    let secret_bytes = ark_payer.secret_bytes();
    let package = build_cooperative_claim_adaptor_package_from_parts(
        btc_payer,
        btc_secret_nonce,
        &btc_public_nonce,
        &ark_key,
        &ark_public_nonce,
        &ark_partial_sig,
        sighash,
        tap_tweak,
        adaptor_point,
    );
    proof {
        let (ark_stored, ark_plain) = choose|ark_stored: Seq<u8>, ark_plain: Seq<u8>|
            #![trigger stored_for(ark_stored, ark_plain)]
            stored_for(ark_stored, ark_plain) && adaptor_share(
                ark_payer@,
                btc_key@,
                btc_public_nonce@,
                sighash@,
                tweak_view(tap_tweak),
                adaptor_point@,
                ark_stored,
                ark_plain,
                ark_public_nonce@,
                ark_partial_sig@,
            );
        lemma_stored_signs(ark_stored, ark_plain);
        assert(honest_session(
            btc_payer@,
            ark_key@,
            aggregate_nonce(btc_public_nonce@, ark_public_nonce@),
            btc_scalars,
            sighash@,
            tweak_view(tap_tweak),
            ark_partial_sig@,
            ark_payer@,
            ark_stored.subrange(4, 68),
            btc_public_nonce@,
            ark_plain,
            ark_public_nonce@,
            adaptor_point@,
        ));
    }
    package
}

/// A completed signature is valid, keeps the nonce of the pre-signature, and differs from it by the secret,
/// added or subtracted; whoever holds both gets the secret back where the pre-signature is for its point,
/// which is not the one of the opposite secret.
pub proof fn law_completed_signature_reveals_the_secret(package: AdaptorView, secret: Seq<u8>)
    requires
        is_secret(secret),
        package.pre_signature.len() == 64,
        completed(package, secret) is Some,
    ensures
        ({
            let signature = completed(package, secret)->0;
            let before = number(package.pre_signature.subrange(32, 64));
            let after = number(signature.subrange(32, 64));
            &&& signature.len() == 64 && signature.subrange(0, 32) == package.pre_signature.subrange(0, 32)
            &&& schnorr_valid(signature, package.sighash, package.aggregate_key)
            &&& (after - before - number(secret)) % curve_order() as int == 0 || (after - before + number(secret))
                % curve_order() as int == 0
            &&& package.adaptor_point == point_of(secret) && point_of(scalar(-number(secret))) != point_of(secret) ==> revealed(
                package.pre_signature,
                signature,
                package.adaptor_point,
            ) == Some(secret)
        }),
{
    let value = scalar_part(package.pre_signature);
    let signature = completed(package, secret)->0;
    let order = curve_order() as int;
    let s = number(value) as int;
    let t = number(secret) as int;
    lemma_order_fits();
    lemma_scalar_number(s + t);
    lemma_scalar_number(s - t);
    let plus = scalar(s + t);
    let minus = scalar(s - t);
    assert(nonce_part(package.pre_signature).len() == 32);
    if signs(
        offset_signature(package.pre_signature, t),
        package.sighash,
        package.aggregate_key,
    ) {
        assert(scalar_part(signature) =~= plus);
        assert(nonce_part(signature) =~= nonce_part(package.pre_signature));
        lemma_sum_reveals(value, secret, plus);
        lemma_scalar_shift(-s - t, s + t);
        lemma_small_mod(0, curve_order());
    } else {
        assert(scalar_part(signature) =~= minus);
        assert(nonce_part(signature) =~= nonce_part(package.pre_signature));
        lemma_difference_reveals(value, secret, minus);
        lemma_scalar_shift(-s + t, s - t);
        lemma_small_mod(0, curve_order());
    }
}

} // verus!
