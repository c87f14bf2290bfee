//! VTXOs, their identifiers, policies and receive addresses.

use std::str::FromStr as _;

use ark::vtxo::Full;
use ark::{ProtocolEncoding as _, Vtxo};
use bitcoin::absolute::LockTime;
use bitcoin::hashes::Hash as _;
use bitcoin::transaction::Version;
use bitcoin::{Amount, ScriptBuf, Sequence, Txid, Witness};
use vstd::prelude::*;

use crate::bytes::bytes_eq;
use crate::error::SwapError;
use crate::genesis::{takes_tweaks, tweaks_taken};
use crate::hex::{bytes_hex, hex_text, law_hex_text_is_injective};
use crate::keys::{is_public_key, PublicKey};
use crate::text::{decimal, lemma_decimal_injective, push_decimal};
use crate::tx::{txid_text, txid_to_string, OutPoint, Transaction, TransactionView, TxIn, TxOut, TxOutView};

verus! {

/// The outpoint that a text writes, if it writes one.
pub uninterp spec fn outpoint_of_text(text: Seq<char>) -> Option<OutPoint>;

/// The encoding of the policy that a hexadecimal text encodes, if it encodes one.
pub uninterp spec fn policy_of_hex(text: Seq<char>) -> Option<Seq<u8>>;

/// The normal text and the encoded policy of the Ark address that a text writes, if it is one.
pub uninterp spec fn ark_address_of_text(text: Seq<char>) -> Option<(Seq<char>, Seq<u8>)>;

/// What is read of the VTXO that bytes encode with its genesis, if they encode one.
pub uninterp spec fn vtxo_of_bytes(bytes: Seq<u8>) -> Option<VtxoView>;

/// Whether the VTXO that bytes encode is valid on an anchor transaction.
pub uninterp spec fn vtxo_validates(bytes: Seq<u8>, anchor: TransactionView) -> bool;

/// Whether the VTXO that bytes encode has a genesis whose keys take their tweaks, and is valid on an
/// anchor transaction.
pub open spec fn vtxo_valid(bytes: Seq<u8>, anchor: TransactionView) -> bool {
    tweaks_taken(bytes) && vtxo_validates(bytes, anchor)
}

/// The exit transactions of the VTXO that bytes encode, each with the index of its output on the
/// path, from the anchor to the VTXO.
pub uninterp spec fn vtxo_exits(bytes: Seq<u8>) -> Seq<(TransactionView, nat)>;

/// The output of the VTXO that bytes encode.
pub uninterp spec fn vtxo_output(bytes: Seq<u8>) -> TxOutView;

/// The identifier of a VTXO: the outpoint that it becomes on chain.
#[derive(Clone, Copy, Debug, PartialEq, Eq, Hash)]
pub struct VtxoId {
    pub point: OutPoint,
}

/// The text of an identifier: the transaction identifier, a colon, and the output's index.
pub open spec fn vtxo_id_text(id: VtxoId) -> Seq<char> {
    txid_text(id.point.txid) + seq![':'] + decimal(id.point.vout as nat)
}

/// The texts of some identifiers.
pub open spec fn vtxo_id_texts(ids: Seq<VtxoId>) -> Seq<Seq<char>> {
    ids.map_values(|id: VtxoId| vtxo_id_text(id))
}

/// `bitcoin::OutPoint::from_str`, by which `ark::VtxoId::from_str` reads an identifier.
#[verifier::external_body]
fn parse_outpoint(text: &str) -> (point: Option<OutPoint>)
    ensures
        point == outpoint_of_text(text@),
{
    let id = ark::VtxoId::from_str(text).ok()?.to_point();
    Some(OutPoint { txid: id.txid.to_byte_array(), vout: id.vout })
}

/// `ark::VtxoPolicy::deserialize_hex`, encoded again.
#[verifier::external_body]
fn parse_policy(hex: &str) -> (encoded: Option<Vec<u8>>)
    ensures
        match encoded {
            Some(found) => policy_of_hex(hex@) == Some(found@),
            None => policy_of_hex(hex@) is None,
        },
{
    ark::VtxoPolicy::deserialize_hex(hex).ok().map(|policy| policy.serialize())
}

/// The user's key of an encoded policy.
pub uninterp spec fn policy_user_key(encoded: Seq<u8>) -> Option<Seq<u8>>;

/// The encoding of the policy of an ordinary public key: a zero byte, and the key.
pub open spec fn pubkey_policy_of(key: Seq<u8>) -> Seq<u8> {
    seq![0u8] + key
}

/// `ark::VtxoPolicy::user_pubkey` of the policy that `ProtocolEncoding::deserialize` reads, and
/// nothing where it reads none.
#[verifier::external_body]
fn read_user_key(encoded: &[u8]) -> (key: Option<[u8; 33]>)
    ensures
        match key {
            Some(found) => policy_user_key(encoded@) == Some(found@) && is_public_key(found@),
            None => policy_user_key(encoded@) is None,
        },
{
    ark::VtxoPolicy::deserialize(encoded).ok().map(|policy| policy.user_pubkey().serialize())
}

/// `ark::VtxoPolicy::new_pubkey`, encoded: the byte of its kind, which is zero, and the key.
/// `ark::VtxoPolicy::user_pubkey` gives the key back.
#[verifier::external_body]
fn new_pubkey_policy(key: &[u8; 33]) -> (encoded: Vec<u8>)
    requires
        is_public_key(key@),
    ensures
        encoded@ == pubkey_policy_of(key@),
        policy_user_key(encoded@) == Some(key@),
{
    ark::VtxoPolicy::new_pubkey(bitcoin::secp256k1::PublicKey::from_slice(key).unwrap()).serialize()
}

/// `ark::Address::from_str`: the address printed, and its policy encoded.
#[verifier::external_body]
fn read_ark_address(text: &str) -> (address: Option<(String, Vec<u8>)>)
    ensures
        match address {
            Some(found) => ark_address_of_text(text@) == Some((found.0@, found.1@)),
            None => ark_address_of_text(text@) is None,
        },
{
    let address = ark::Address::from_str(text).ok()?;
    Some((address.to_string(), address.policy().serialize()))
}

/// `ark::Vtxo::<Full>::deserialize`, and the getters of the VTXO.
#[verifier::external_body]
fn read_vtxo(bytes: &[u8]) -> (vtxo: Option<(OutPoint, OutPoint, Vec<u8>, bool, u32, u32, [u8; 33])>)
    ensures
        match vtxo {
            Some(found) => vtxo_of_bytes(bytes@) == Some(
                VtxoView {
                    encoded: bytes@,
                    point: found.0,
                    chain_anchor: found.1,
                    policy: found.2@,
                    pubkey_policy: found.3,
                    expiry_height: found.4,
                    exit_delta: found.5,
                    server_pubkey: found.6@,
                },
            ) && is_public_key(found.6@) && found.5 <= 0xffff,
            None => vtxo_of_bytes(bytes@) is None,
        },
{
    let vtxo = Vtxo::<Full>::deserialize(bytes).ok()?;
    let point = |from: bitcoin::OutPoint| OutPoint { txid: from.txid.to_byte_array(), vout: from.vout };
    Some((
        point(vtxo.point()), point(vtxo.chain_anchor()), vtxo.policy().serialize(),
        matches!(vtxo.policy(), ark::VtxoPolicy::Pubkey(_)), vtxo.expiry_height().to_u32(),
        vtxo.exit_delta().to_u32(), vtxo.server_pubkey().serialize(),
    ))
}

/// `ark::Vtxo::<Full>::validate` on an anchor transaction. It aggregates the keys of every tweaked
/// step of the genesis, and demands that the aggregate takes the tweak.
#[verifier::external_body]
fn validate_vtxo(bytes: &[u8], anchor: &Transaction) -> (valid: bool)
    requires
        vtxo_of_bytes(bytes@) is Some,
        tweaks_taken(bytes@),
    ensures
        valid == vtxo_validates(bytes@, anchor@),
{
    let anchor = bitcoin::Transaction {
        version: Version(anchor.version), lock_time: LockTime::from_consensus(anchor.lock_time),
        input: anchor.input.iter().map(|from| bitcoin::TxIn {
            previous_output: bitcoin::OutPoint::new(
                Txid::from_byte_array(from.previous_output.txid), from.previous_output.vout),
            script_sig: ScriptBuf::from_bytes(from.script_sig.clone()),
            sequence: Sequence(from.sequence), witness: Witness::from_slice(&from.witness),
        }).collect(),
        output: anchor.output.iter().map(|from| bitcoin::TxOut {
            value: Amount::from_sat(from.value), script_pubkey: ScriptBuf::from_bytes(from.script_pubkey.clone()),
        }).collect(),
    };
    Vtxo::<Full>::deserialize(bytes).unwrap().validate(&anchor).is_ok()
}

/// `ark::Vtxo::<Full>::transactions` of a VTXO that is valid on some anchor.
#[verifier::external_body]
fn list_exits(bytes: &[u8], anchor: &Transaction) -> (exits: Vec<(Transaction, usize)>)
    requires
        vtxo_of_bytes(bytes@) is Some,
        tweaks_taken(bytes@),
        vtxo_validates(bytes@, anchor@),
    ensures
        exit_views(exits@) == vtxo_exits(bytes@),
{
    let vtxo = Vtxo::<Full>::deserialize(bytes).unwrap();
    let exits = vtxo.transactions().map(|exit| (Transaction {
        version: exit.tx.version.0, lock_time: exit.tx.lock_time.to_consensus_u32(),
        input: exit.tx.input.into_iter().map(|from| TxIn {
            previous_output: OutPoint {
                txid: from.previous_output.txid.to_byte_array(), vout: from.previous_output.vout },
            script_sig: from.script_sig.into_bytes(), sequence: from.sequence.0, witness: from.witness.to_vec(),
        }).collect(),
        output: exit.tx.output.into_iter().map(|from| TxOut {
            value: from.value.to_sat(), script_pubkey: from.script_pubkey.into_bytes() }).collect(),
    }, exit.output_idx)).collect();
    exits
}

/// `ark::Vtxo::<Full>::txout`.
#[verifier::external_body]
fn output_of(bytes: &[u8]) -> (output: TxOut)
    requires
        vtxo_of_bytes(bytes@) is Some,
    ensures
        output@ == vtxo_output(bytes@),
{
    let output = Vtxo::<Full>::deserialize(bytes).unwrap().txout();
    TxOut { value: output.value.to_sat(), script_pubkey: output.script_pubkey.into_bytes() }
}

/// The views of exit transactions.
pub open spec fn exit_views(exits: Seq<(Transaction, usize)>) -> Seq<(TransactionView, nat)> {
    exits.map_values(|exit: (Transaction, usize)| (exit.0@, exit.1 as nat))
}

impl VtxoId {
    /// The identifier that `text` writes.
    pub fn from_str(text: &str) -> (id: Result<VtxoId, SwapError>)
        ensures
            match id {
                Ok(found) => outpoint_of_text(text@) == Some(found.point),
                Err(error) => outpoint_of_text(text@) is None && error == SwapError::InvalidVtxoId,
            },
    {
        match parse_outpoint(text) {
            Some(point) => Ok(VtxoId { point }),
            None => Err(SwapError::InvalidVtxoId),
        }
    }

    /// The text of this identifier.
    pub fn to_string(&self) -> (text: String)
        ensures
            text@ == vtxo_id_text(*self),
    {
        let mut text = txid_to_string(&self.point.txid);
        proof {
            reveal_strlit(":");
        }
        text.append(":");
        push_decimal(&mut text, self.point.vout as u64);
        assert(":"@ =~= seq![':']);
        assert(text@ =~= vtxo_id_text(*self));
        text
    }

    /// Whether two identifiers are the same.
    pub fn same(&self, other: &VtxoId) -> (same: bool)
        ensures
            same == (*self == *other),
    {
        self.point.same(&other.point)
    }
}

/// Whether two lists of identifiers are the same.
pub fn same_ids(a: &Vec<VtxoId>, b: &Vec<VtxoId>) -> (same: bool)
    ensures
        same == (a@ == b@),
{
    if a.len() != b.len() {
        return false;
    }
    let mut i: usize = 0;
    while i < a.len()
        invariant
            i <= a.len(),
            a.len() == b.len(),
            forall|k: int| 0 <= k < i ==> a[k] == b[k],
        decreases a.len() - i,
    {
        if !a[i].same(&b[i]) {
            return false;
        }
        i += 1;
    }
    assert(a@ =~= b@);
    true
}

/// Whether `id` is one of `ids`.
pub fn contains_id(ids: &Vec<VtxoId>, id: &VtxoId) -> (found: bool)
    ensures
        found == ids@.contains(*id),
{
    let mut i: usize = 0;
    while i < ids.len()
        invariant
            i <= ids.len(),
            forall|k: int| 0 <= k < i ==> ids[k] != *id,
        decreases ids.len() - i,
    {
        if ids[i].same(id) {
            assert(ids@[i as int] == *id);
            return true;
        }
        i += 1;
    }
    false
}

/// The texts of some identifiers.
pub fn id_texts(ids: &Vec<VtxoId>) -> (texts: Vec<String>)
    ensures
        crate::bytes::text_views(texts@) == vtxo_id_texts(ids@),
{
    let mut texts: Vec<String> = Vec::new();
    let mut i: usize = 0;
    while i < ids.len()
        invariant
            i <= ids.len(),
            texts.len() == i,
            forall|k: int| 0 <= k < i ==> (#[trigger] texts[k])@ == vtxo_id_text(ids[k]),
        decreases ids.len() - i,
    {
        texts.push(ids[i].to_string());
        i += 1;
    }
    assert(crate::bytes::text_views(texts@) =~= vtxo_id_texts(ids@));
    texts
}

/// The identifiers that texts write, if each writes one.
pub open spec fn ids_of_texts(texts: Seq<Seq<char>>) -> Option<Seq<VtxoId>> {
    if forall|i: int| 0 <= i < texts.len() ==> outpoint_of_text(#[trigger] texts[i]) is Some {
        Some(texts.map_values(|text: Seq<char>| VtxoId { point: outpoint_of_text(text)->0 }))
    } else {
        None
    }
}

/// The identifiers that `texts` write.
pub fn parse_ids(texts: &Vec<String>) -> (ids: Result<Vec<VtxoId>, SwapError>)
    ensures
        match ids {
            Ok(found) => ids_of_texts(crate::bytes::text_views(texts@)) == Some(found@),
            Err(error) => ids_of_texts(crate::bytes::text_views(texts@)) is None && error == SwapError::InvalidVtxoId,
        },
{
    let ghost views = crate::bytes::text_views(texts@);
    let mut ids: Vec<VtxoId> = Vec::new();
    let mut i: usize = 0;
    while i < texts.len()
        invariant
            i <= texts.len(),
            ids.len() == i,
            views == crate::bytes::text_views(texts@),
            forall|k: int| 0 <= k < i ==> outpoint_of_text(#[trigger] views[k]) == Some(ids[k].point),
        decreases texts.len() - i,
    {
        assert(views[i as int] == texts[i as int]@);
        match VtxoId::from_str(texts[i].as_str()) {
            Ok(id) => {
                ids.push(id);
            },
            Err(error) => {
                return Err(error);
            },
        }
        i += 1;
    }
    assert(ids_of_texts(views)->0 =~= ids@);
    Ok(ids)
}

/// A spending policy of VTXOs, by its encoding.
#[derive(Debug, PartialEq, Eq)]
pub struct VtxoPolicy {
    encoded: Vec<u8>,
}

impl View for VtxoPolicy {
    type V = Seq<u8>;

    closed spec fn view(&self) -> Seq<u8> {
        self.encoded@
    }
}

impl Clone for VtxoPolicy {
    fn clone(&self) -> (copy: VtxoPolicy)
        ensures
            copy@ == self@,
    {
        VtxoPolicy { encoded: self.encoded.clone() }
    }
}

impl VtxoPolicy {
    /// The policy of an ordinary public key.
    pub fn new_pubkey(key: &PublicKey) -> (policy: VtxoPolicy)
        ensures
            policy@ == pubkey_policy_of(key@),
            policy_user_key(policy@) == Some(key@),
    {
        VtxoPolicy { encoded: new_pubkey_policy(&key.serialize()) }
    }

    /// The user's key of this policy.
    pub fn user_pubkey(&self) -> (key: Option<PublicKey>)
        ensures
            match key {
                Some(found) => policy_user_key(self@) == Some(found@),
                None => policy_user_key(self@) is None,
            },
    {
        match read_user_key(self.encoded.as_slice()) {
            Some(bytes) => Some(PublicKey::from_valid(bytes)),
            None => None,
        }
    }

    /// The policy that `hex` encodes.
    pub fn deserialize_hex(hex: &str) -> (policy: Result<VtxoPolicy, SwapError>)
        ensures
            match policy {
                Ok(found) => policy_of_hex(hex@) == Some(found@),
                Err(error) => policy_of_hex(hex@) is None && error == SwapError::InvalidPolicy,
            },
    {
        match parse_policy(hex) {
            Some(encoded) => Ok(VtxoPolicy { encoded }),
            None => Err(SwapError::InvalidPolicy),
        }
    }

    /// The hexadecimal text of the encoding.
    pub fn serialize_hex(&self) -> (text: String)
        ensures
            text@ == hex_text(self@),
    {
        bytes_hex(self.encoded.as_slice())
    }

    /// Whether two policies are the same.
    pub fn same(&self, other: &VtxoPolicy) -> (same: bool)
        ensures
            same == (self@ == other@),
    {
        bytes_eq(self.encoded.as_slice(), other.encoded.as_slice())
    }
}

/// The normal text and the policy of the Ark address that `text` writes.
pub fn parse_ark_address(text: &str) -> (address: Result<(String, VtxoPolicy), SwapError>)
    ensures
        match address {
            Ok(found) => ark_address_of_text(text@) == Some((found.0@, found.1@)),
            Err(error) => ark_address_of_text(text@) is None && error == SwapError::InvalidArkAddress,
        },
{
    match read_ark_address(text) {
        Some((normal, encoded)) => Ok((normal, VtxoPolicy { encoded })),
        None => Err(SwapError::InvalidArkAddress),
    }
}

/// A VTXO with its genesis.
#[derive(Debug, PartialEq, Eq)]
pub struct ArkVtxo {
    encoded: Vec<u8>,
    point: OutPoint,
    chain_anchor: OutPoint,
    policy: VtxoPolicy,
    pubkey_policy: bool,
    expiry_height: u32,
    exit_delta: u32,
    server_pubkey: PublicKey,
}

/// What is read of a VTXO.
#[verifier::ext_equal]
pub struct VtxoView {
    pub encoded: Seq<u8>,
    pub point: OutPoint,
    pub chain_anchor: OutPoint,
    pub policy: Seq<u8>,
    pub pubkey_policy: bool,
    pub expiry_height: u32,
    pub exit_delta: u32,
    pub server_pubkey: Seq<u8>,
}

impl View for ArkVtxo {
    type V = VtxoView;

    closed spec fn view(&self) -> VtxoView {
        VtxoView {
            encoded: self.encoded@,
            point: self.point,
            chain_anchor: self.chain_anchor,
            policy: self.policy@,
            pubkey_policy: self.pubkey_policy,
            expiry_height: self.expiry_height,
            exit_delta: self.exit_delta,
            server_pubkey: self.server_pubkey@,
        }
    }
}

impl ArkVtxo {
    #[verifier::type_invariant]
    spec fn valid(self) -> bool {
        vtxo_of_bytes(self.encoded@) is Some
    }

    /// The VTXO that `bytes` encode with its genesis.
    pub fn deserialize(bytes: Vec<u8>) -> (vtxo: Result<ArkVtxo, SwapError>)
        ensures
            match vtxo {
                Ok(found) => vtxo_of_bytes(bytes@) == Some(found@),
                Err(error) => vtxo_of_bytes(bytes@) is None && error == SwapError::InvalidVtxo,
            },
    {
        match read_vtxo(bytes.as_slice()) {
            Some((point, chain_anchor, policy, pubkey_policy, expiry_height, exit_delta, server_pubkey)) => Ok(
                ArkVtxo {
                    encoded: bytes,
                    point,
                    chain_anchor,
                    policy: VtxoPolicy { encoded: policy },
                    pubkey_policy,
                    expiry_height,
                    exit_delta,
                    server_pubkey: PublicKey::from_valid(server_pubkey),
                },
            ),
            None => Err(SwapError::InvalidVtxo),
        }
    }

    /// The outpoint that this VTXO becomes on chain.
    pub fn point(&self) -> (point: OutPoint)
        ensures
            point == self@.point,
    {
        self.point
    }

    /// The identifier of this VTXO.
    pub fn id(&self) -> (id: VtxoId)
        ensures
            id.point == self@.point,
    {
        VtxoId { point: self.point }
    }

    /// The on-chain output that this VTXO descends from.
    pub fn chain_anchor(&self) -> (point: OutPoint)
        ensures
            point == self@.chain_anchor,
    {
        self.chain_anchor
    }

    /// The policy of this VTXO.
    pub fn policy(&self) -> (policy: &VtxoPolicy)
        ensures
            policy@ == self@.policy,
    {
        &self.policy
    }

    /// Whether the policy is an ordinary public key.
    pub fn has_pubkey_policy(&self) -> (found: bool)
        ensures
            found == self@.pubkey_policy,
    {
        self.pubkey_policy
    }

    /// The height at which this VTXO expires.
    pub fn expiry_height(&self) -> (height: u32)
        ensures
            height == self@.expiry_height,
    {
        self.expiry_height
    }

    /// The blocks that an emergency exit has to wait.
    pub fn exit_delta(&self) -> (delta: u32)
        ensures
            delta == self@.exit_delta,
    {
        self.exit_delta
    }

    /// The key of the server that cosigned this VTXO.
    pub fn server_pubkey(&self) -> (key: PublicKey)
        ensures
            key@ == self@.server_pubkey,
    {
        self.server_pubkey
    }

    /// The output of this VTXO.
    pub fn txout(&self) -> (output: TxOut)
        ensures
            output@ == vtxo_output(self@.encoded),
    {
        proof {
            use_type_invariant(self);
        }
        output_of(self.encoded.as_slice())
    }

    /// The exit transactions of this VTXO, if it is valid on the anchor transaction.
    pub fn valid_exits(&self, anchor: &Transaction) -> (exits: Option<Vec<(Transaction, usize)>>)
        ensures
            match exits {
                Some(found) => vtxo_valid(self@.encoded, anchor@) && exit_views(found@) == vtxo_exits(self@.encoded),
                None => !vtxo_valid(self@.encoded, anchor@),
            },
    {
        proof {
            use_type_invariant(self);
        }
        if takes_tweaks(self.encoded.as_slice()) && validate_vtxo(self.encoded.as_slice(), anchor) {
            Some(list_exits(self.encoded.as_slice(), anchor))
        } else {
            None
        }
    }
}

/// The views of some VTXOs.
pub open spec fn vtxo_views(items: Seq<ArkVtxo>) -> Seq<VtxoView> {
    items.map_values(|item: ArkVtxo| item@)
}

/// Two VTXOs have two texts: the text of an identifier tells the transaction and the output.
pub proof fn law_vtxo_id_text_tells_the_vtxo(a: VtxoId, b: VtxoId)
    requires
        vtxo_id_text(a) == vtxo_id_text(b),
    ensures
        a == b,
{
    let (x, y) = (vtxo_id_text(a), vtxo_id_text(b));
    let (s, t) = (txid_text(a.point.txid), txid_text(b.point.txid));
    assert(s.len() == 64 && t.len() == 64);
    assert(x.take(64) =~= s);
    assert(y.take(64) =~= t);
    law_hex_text_is_injective(a.point.txid@.reverse(), b.point.txid@.reverse());
    assert(a.point.txid@ =~= b.point.txid@) by {
        assert forall|i: int| 0 <= i < 32 implies a.point.txid@[i] == b.point.txid@[i] by {
            assert(a.point.txid@.reverse()[31 - i] == a.point.txid@[i]);
            assert(b.point.txid@.reverse()[31 - i] == b.point.txid@[i]);
        }
    }
    assert(a.point.txid == b.point.txid);
    assert(x.skip(65) =~= decimal(a.point.vout as nat));
    assert(y.skip(65) =~= decimal(b.point.vout as nat));
    lemma_decimal_injective(a.point.vout as nat, b.point.vout as nat);
}

/// Identifiers are read one by one, in their order, and none is read where one cannot be.
pub proof fn law_ids_are_read_one_by_one(texts: Seq<Seq<char>>)
    ensures
        ids_of_texts(texts) is None <==> (exists|i: int|
            0 <= i < texts.len() && outpoint_of_text(#[trigger] texts[i]) is None),
        ids_of_texts(texts) matches Some(ids) ==> ids.len() == texts.len() && (forall|i: int|
            0 <= i < texts.len() ==> outpoint_of_text(#[trigger] texts[i]) == Some(ids[i].point)),
{
}

} // verus!
