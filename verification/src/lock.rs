//! The BTC lock: a taproot output that both parties spend together by key, and that the BTC payer
//! spends alone by script from the refund height on.

use bitcoin::hashes::Hash as _;
use bitcoin::secp256k1::Scalar;
use bitcoin::taproot::{LeafVersion, TapLeafHash, TapNodeHash, TapTweakHash, TaprootBuilder};
use bitcoin::ScriptBuf;
use vstd::prelude::*;

use crate::address::{address_of_script, taproot_address, Network};
use crate::bytes::bytes_eq;
use crate::error::SwapError;
use crate::keys::{is_xonly_key, PublicKey, XOnlyPublicKey};
use crate::musig::{aggregate_key, combine_keys};
use crate::script::{p2tr, timelock_script, timelock_sign, LOCK_TIME_THRESHOLD};
use crate::tx::{TxOut, TxOutView};

verus! {

/// The sequence number of inputs that can be replaced and that respect the lock time.
pub const ENABLE_RBF_NO_LOCKTIME: u32 = 0xffff_fffd;

/// Whether an internal key takes the tweak of a single leaf: the tweak is below the order of the
/// curve and does not cancel the key.
pub uninterp spec fn taproot_accepts(internal: Seq<u8>, leaf: Seq<u8>) -> bool;

/// The output key of an internal key and a single leaf.
pub uninterp spec fn taproot_output_key(internal: Seq<u8>, leaf: Seq<u8>) -> Seq<u8>;

/// The tweak of an internal key and a single leaf.
pub uninterp spec fn taproot_tweak(internal: Seq<u8>, leaf: Seq<u8>) -> Seq<u8>;

/// The control block by which a single leaf is spent.
pub uninterp spec fn taproot_control_block(internal: Seq<u8>, leaf: Seq<u8>) -> Seq<u8>;

/// The output script of a taproot output key.
pub open spec fn taproot_script(key: Seq<u8>) -> Seq<u8> {
    seq![0x51u8, 0x20] + key
}

/// The output key of an internal key that has no scripts, if the key takes the tweak.
pub uninterp spec fn key_path_key(internal: Seq<u8>) -> Option<Seq<u8>>;

/// `TapTweakHash::from_key_and_tweak` without scripts, and `XOnlyPublicKey::add_tweak` of the
/// result where `Scalar::from_be_bytes` takes it.
#[verifier::external_body]
fn tweak_key_path(internal: &[u8; 32]) -> (key: Option<[u8; 32]>)
    requires
        is_xonly_key(internal@),
    ensures
        match key {
            Some(found) => key_path_key(internal@) == Some(found@),
            None => key_path_key(internal@) is None,
        },
{
    let internal = bitcoin::secp256k1::XOnlyPublicKey::from_slice(internal).unwrap();
    let tweak = Scalar::from_be_bytes(TapTweakHash::from_key_and_tweak(internal, None).to_byte_array()).ok()?;
    internal.add_tweak(&ark::SECP, &tweak).ok().map(|(key, _)| key.serialize())
}

/// The output script of an internal key that has no scripts, if the key takes the tweak.
pub fn key_path_script(internal: &XOnlyPublicKey) -> (script: Option<Vec<u8>>)
    ensures
        match script {
            Some(found) => key_path_key(internal@) matches Some(key) && found@ == taproot_script(key),
            None => key_path_key(internal@) is None,
        },
{
    match tweak_key_path(&internal.serialize()) {
        Some(key) => {
            let mut script: Vec<u8> = Vec::new();
            script.push(0x51);
            script.push(0x20);
            script.extend_from_slice(key.as_slice());
            assert(script@ =~= taproot_script(key@));
            Some(script)
        },
        None => None,
    }
}

/// `TapTweakHash::from_key_and_tweak` for a single leaf, and `XOnlyPublicKey::add_tweak` of the
/// result where `Scalar::from_be_bytes` takes it.
#[verifier::external_body]
fn tweak_taken(internal: &[u8; 32], leaf: &[u8]) -> (found: bool)
    requires
        is_xonly_key(internal@),
    ensures
        found == taproot_accepts(internal@, leaf@),
{
    let internal = bitcoin::secp256k1::XOnlyPublicKey::from_slice(internal).unwrap();
    let leaf = TapLeafHash::from_script(&ScriptBuf::from_bytes(leaf.to_vec()), LeafVersion::TapScript);
    let tweak = TapTweakHash::from_key_and_tweak(internal, Some(TapNodeHash::from(leaf))).to_byte_array();
    Scalar::from_be_bytes(tweak).ok().and_then(|tweak| internal.add_tweak(&ark::SECP, &tweak).ok()).is_some()
}

/// `TaprootSpendInfo::output_key` of a tree with a single leaf.
#[verifier::external_body]
fn output_key_of(internal: &[u8; 32], leaf: &[u8]) -> (key: [u8; 32])
    requires
        is_xonly_key(internal@),
        taproot_accepts(internal@, leaf@),
    ensures
        key@ == taproot_output_key(internal@, leaf@),
        is_xonly_key(key@),
{
    let internal = bitcoin::secp256k1::XOnlyPublicKey::from_slice(internal).unwrap();
    let tree = TaprootBuilder::new().add_leaf(0, ScriptBuf::from_bytes(leaf.to_vec())).unwrap();
    tree.finalize(&ark::SECP, internal).unwrap().output_key().to_x_only_public_key().serialize()
}

/// `TaprootSpendInfo::tap_tweak` of a tree with a single leaf.
#[verifier::external_body]
fn tweak_of(internal: &[u8; 32], leaf: &[u8]) -> (tweak: [u8; 32])
    requires
        is_xonly_key(internal@),
        taproot_accepts(internal@, leaf@),
    ensures
        tweak@ == taproot_tweak(internal@, leaf@),
{
    let internal = bitcoin::secp256k1::XOnlyPublicKey::from_slice(internal).unwrap();
    let tree = TaprootBuilder::new().add_leaf(0, ScriptBuf::from_bytes(leaf.to_vec())).unwrap();
    tree.finalize(&ark::SECP, internal).unwrap().tap_tweak().to_byte_array()
}

/// `TaprootSpendInfo::control_block` of the only leaf of a tree, serialized.
#[verifier::external_body]
fn control_block_of(internal: &[u8; 32], leaf: &[u8]) -> (block: Vec<u8>)
    requires
        is_xonly_key(internal@),
        taproot_accepts(internal@, leaf@),
    ensures
        block@ == taproot_control_block(internal@, leaf@),
{
    let internal = bitcoin::secp256k1::XOnlyPublicKey::from_slice(internal).unwrap();
    let leaf = ScriptBuf::from_bytes(leaf.to_vec());
    let tree = TaprootBuilder::new().add_leaf(0, leaf.clone()).unwrap();
    let info = tree.finalize(&ark::SECP, internal).unwrap();
    info.control_block(&(leaf, LeafVersion::TapScript)).unwrap().serialize()
}

/// How a taproot output with a single leaf is spent.
#[derive(Debug, PartialEq, Eq)]
pub struct TaprootSpend {
    internal: [u8; 32],
    leaf: Vec<u8>,
}

/// What a taproot output with a single leaf is made of.
#[verifier::ext_equal]
pub struct TaprootView {
    pub internal: Seq<u8>,
    pub leaf: Seq<u8>,
}

impl View for TaprootSpend {
    type V = TaprootView;

    closed spec fn view(&self) -> TaprootView {
        TaprootView { internal: self.internal@, leaf: self.leaf@ }
    }
}

/// The BTC lock of a swap.
#[derive(Debug, PartialEq, Eq)]
pub struct BtcLockContract {
    pub amount: u64,
    pub refund_height: u32,
    pub refund_script: Vec<u8>,
    pub taproot: TaprootSpend,
    pub address: String,
}

/// What the BTC lock of a swap is.
#[verifier::ext_equal]
pub struct LockView {
    pub amount: u64,
    pub refund_height: u32,
    pub refund_script: Seq<u8>,
    pub taproot: TaprootView,
    pub address: Seq<char>,
}

impl View for BtcLockContract {
    type V = LockView;

    open spec fn view(&self) -> LockView {
        LockView {
            amount: self.amount,
            refund_height: self.refund_height,
            refund_script: self.refund_script@,
            taproot: self.taproot@,
            address: self.address@,
        }
    }
}

/// The output key of a lock.
pub open spec fn lock_key(taproot: TaprootView) -> Seq<u8> {
    taproot_output_key(taproot.internal, taproot.leaf)
}

/// The tweak that a lock's aggregate key is signed under.
pub open spec fn lock_tweak(taproot: TaprootView) -> Seq<u8> {
    taproot_tweak(taproot.internal, taproot.leaf)
}

/// The output that a lock is.
pub open spec fn lock_output(lock: LockView) -> TxOutView {
    TxOutView { value: lock.amount, script_pubkey: taproot_script(lock_key(lock.taproot)) }
}

/// The control block by which a script of a lock is spent, if it is the leaf.
pub open spec fn lock_control_block(taproot: TaprootView, script: Seq<u8>) -> Option<Seq<u8>> {
    if script == taproot.leaf {
        Some(taproot_control_block(taproot.internal, taproot.leaf))
    } else {
        None
    }
}

/// The lock of two claim keys, a refund key and a refund height.
pub open spec fn lock_of(
    amount: u64,
    network: Network,
    btc_payer: Seq<u8>,
    ark_payer: Seq<u8>,
    refund_key: Seq<u8>,
    refund_height: u32,
) -> LockView {
    let leaf = timelock_script(refund_height as nat, refund_key);
    let internal = aggregate_key(btc_payer, ark_payer).subrange(1, 33);
    LockView {
        amount,
        refund_height,
        refund_script: leaf,
        taproot: TaprootView { internal, leaf },
        address: address_of_script(taproot_script(taproot_output_key(internal, leaf)), network)->0,
    }
}

/// Whether a lock of these keys and this refund height can be made.
pub open spec fn lock_possible(btc_payer: Seq<u8>, ark_payer: Seq<u8>, refund_key: Seq<u8>, refund_height: u32) -> bool {
    refund_height < LOCK_TIME_THRESHOLD && taproot_accepts(
        aggregate_key(btc_payer, ark_payer).subrange(1, 33),
        timelock_script(refund_height as nat, refund_key),
    )
}

impl Clone for TaprootSpend {
    fn clone(&self) -> (copy: TaprootSpend)
        ensures
            copy@ == self@,
    {
        proof {
            use_type_invariant(self);
        }
        let leaf = self.leaf.clone();
        assert(leaf@ == self.leaf@);
        TaprootSpend { internal: self.internal, leaf }
    }
}

impl TaprootSpend {
    #[verifier::type_invariant]
    spec fn valid(self) -> bool {
        is_xonly_key(self.internal@) && taproot_accepts(self.internal@, self.leaf@)
    }

    /// The taproot output of an internal key and a leaf, if the key takes the tweak.
    fn new(internal: &XOnlyPublicKey, leaf: &Vec<u8>) -> (spend: Option<TaprootSpend>)
        ensures
            match spend {
                Some(found) => taproot_accepts(internal@, leaf@) && found@ == (TaprootView {
                    internal: internal@,
                    leaf: leaf@,
                }),
                None => !taproot_accepts(internal@, leaf@),
            },
    {
        let bytes = internal.serialize();
        if tweak_taken(&bytes, leaf.as_slice()) {
            let copy = leaf.clone();
            assert(copy@ == leaf@);
            Some(TaprootSpend { internal: bytes, leaf: copy })
        } else {
            None
        }
    }

    /// The output key.
    pub fn output_key(&self) -> (key: XOnlyPublicKey)
        ensures
            key@ == lock_key(self@),
    {
        proof {
            use_type_invariant(self);
        }
        XOnlyPublicKey::from_valid(output_key_of(&self.internal, self.leaf.as_slice()))
    }

    /// The tweak that the aggregate key is signed under.
    pub fn tap_tweak(&self) -> (tweak: [u8; 32])
        ensures
            tweak@ == lock_tweak(self@),
    {
        proof {
            use_type_invariant(self);
        }
        tweak_of(&self.internal, self.leaf.as_slice())
    }

    /// The control block by which `script` is spent, if it is the leaf.
    pub fn control_block(&self, script: &Vec<u8>) -> (block: Option<Vec<u8>>)
        ensures
            match block {
                Some(found) => lock_control_block(self@, script@) == Some(found@),
                None => lock_control_block(self@, script@) is None,
            },
    {
        proof {
            use_type_invariant(self);
        }
        if bytes_eq(script.as_slice(), self.leaf.as_slice()) {
            Some(control_block_of(&self.internal, self.leaf.as_slice()))
        } else {
            None
        }
    }

    /// The output script.
    pub fn script_pubkey(&self) -> (script: Vec<u8>)
        ensures
            script@ == taproot_script(lock_key(self@)),
            p2tr(script@),
    {
        let key = self.output_key().serialize();
        let mut script: Vec<u8> = Vec::new();
        script.push(0x51);
        script.push(0x20);
        script.extend_from_slice(key.as_slice());
        assert(script@ =~= taproot_script(key@));
        script
    }
}

impl Clone for BtcLockContract {
    fn clone(&self) -> (copy: BtcLockContract)
        ensures
            copy@ == self@,
    {
        BtcLockContract {
            amount: self.amount,
            refund_height: self.refund_height,
            refund_script: self.refund_script.clone(),
            taproot: self.taproot.clone(),
            address: self.address.clone(),
        }
    }
}

impl BtcLockContract {
    /// The lock of two claim keys, a refund key and an absolute refund height.
    pub fn new(
        amount: u64,
        network: Network,
        btc_payer_pubkey: &PublicKey,
        ark_payer_pubkey: &PublicKey,
        refund_pubkey: &XOnlyPublicKey,
        refund_height: u32,
    ) -> (lock: Result<BtcLockContract, SwapError>)
        ensures
            match lock {
                Ok(found) => lock_possible(btc_payer_pubkey@, ark_payer_pubkey@, refund_pubkey@, refund_height)
                    && found@ == lock_of(
                    amount,
                    network,
                    btc_payer_pubkey@,
                    ark_payer_pubkey@,
                    refund_pubkey@,
                    refund_height,
                ),
                Err(error) => !lock_possible(btc_payer_pubkey@, ark_payer_pubkey@, refund_pubkey@, refund_height)
                    && error == (if refund_height >= LOCK_TIME_THRESHOLD {
                    SwapError::InvalidRefundHeight
                } else {
                    SwapError::InvalidTweak
                }),
            },
    {
        if refund_height >= LOCK_TIME_THRESHOLD {
            return Err(SwapError::InvalidRefundHeight);
        }
        let internal = combine_keys(btc_payer_pubkey, ark_payer_pubkey).x_only_public_key();
        let refund_script = timelock_sign(refund_height, &refund_pubkey.serialize());
        match TaprootSpend::new(&internal, &refund_script) {
            Some(taproot) => {
                let address = taproot_address(taproot.script_pubkey().as_slice(), network);
                Ok(BtcLockContract { amount, refund_height, refund_script, taproot, address })
            },
            None => Err(SwapError::InvalidTweak),
        }
    }

    /// The address to pay, and how much.
    pub fn funding_destination(&self) -> (destination: (String, u64))
        ensures
            destination.0@ == self@.address,
            destination.1 == self@.amount,
    {
        (self.address.clone(), self.amount)
    }

    /// The output that this lock is.
    pub fn txout(&self) -> (output: TxOut)
        ensures
            output@ == lock_output(self@),
    {
        TxOut { value: self.amount, script_pubkey: self.taproot.script_pubkey() }
    }

    /// The sequence number with which the refund spends the lock.
    pub fn refund_sequence(&self) -> (sequence: u32)
        ensures
            sequence == ENABLE_RBF_NO_LOCKTIME,
    {
        ENABLE_RBF_NO_LOCKTIME
    }

    /// Whether the refund can be spent at this tip.
    pub fn refund_is_mature(&self, tip: u32) -> (mature: bool)
        ensures
            mature == (tip >= self@.refund_height),
    {
        tip >= self.refund_height
    }
}

/// The output of a lock is worth the locked amount, and pays to the output key of its taproot tree: a script of
/// version one with 32 bytes.
pub proof fn law_lock_output_pays_the_amount(lock: LockView)
    ensures
        lock_output(lock).value == lock.amount,
        ({
            let script = lock_output(lock).script_pubkey;
            let key = taproot_output_key(lock.taproot.internal, lock.taproot.leaf);
            &&& script.len() == 2 + key.len() && script[0] == 0x51 && script[1] == 0x20
            &&& script.skip(2) == key
        }),
        lock_key(lock.taproot) == taproot_output_key(lock.taproot.internal, lock.taproot.leaf),
        lock_tweak(lock.taproot) == taproot_tweak(lock.taproot.internal, lock.taproot.leaf),
{
    let key = taproot_output_key(lock.taproot.internal, lock.taproot.leaf);
    assert(lock_output(lock).script_pubkey.skip(2) =~= key);
}

/// A lock can be made exactly for a height of blocks, and where the aggregate of both keys takes the script of
/// the refund: it holds the amount for that aggregate, or for that script.
pub proof fn law_lock_is_of_its_terms(
    amount: u64,
    network: Network,
    btc_payer: Seq<u8>,
    ark_payer: Seq<u8>,
    refund_key: Seq<u8>,
    refund_height: u32,
)
    ensures
        ({
            let lock = lock_of(amount, network, btc_payer, ark_payer, refund_key, refund_height);
            let script = timelock_script(refund_height as nat, refund_key);
            let internal = aggregate_key(btc_payer, ark_payer).subrange(1, 33);
            &&& lock_possible(btc_payer, ark_payer, refund_key, refund_height) <==> refund_height < 500_000_000
                && taproot_accepts(internal, script)
            &&& lock.amount == amount && lock.refund_height == refund_height && lock.refund_script == script
            &&& lock.taproot.internal == internal && lock.taproot.leaf == script
            &&& address_of_script(lock_output(lock).script_pubkey, network) matches Some(address) ==> lock.address
                == address
        }),
{
}

} // verus!
