//! The private state of a swap, which a wallet keeps until the swap is settled.

use vstd::prelude::*;

use crate::ark_types::{ids_of_texts, outpoint_of_text, parse_ids, VtxoId};
use crate::bytes::{text_lists_eq, text_view, text_views};
use crate::chain::BlockRef;
use crate::error::SwapError;
use crate::hex::{hex_text, law_hex_round_trip};
use crate::relay::{after_prefix, response_commitment, swap_refusal, RelayFile, RelayView, VERSION};
use crate::role::{is_terminal_status, role_slug, role_slug_text, terminal, SwapRole, SwapStatus};
use crate::swap_id::{swap_id_value, SwapId};
use crate::tx::{tx_from_hex, tx_of_hex, Transaction, TransactionView};

verus! {

/// The private state of a swap.
#[derive(PartialEq, Eq)]
pub struct StoredBtcArkSwap {
    pub version: u16,
    pub swap_id: String,
    pub role: SwapRole,
    pub status: SwapStatus,
    pub coordinator: String,
    pub claim_key_index: u32,
    pub ark_input_ids: Vec<String>,
    pub relay: RelayFile,
    pub adaptor_secret_hex: Option<String>,
    pub btc_secret_nonce: Option<Vec<u8>>,
    pub funding_psbt_hex: Option<String>,
    pub peer_transcript_hash_hex: Option<String>,
    pub signed_claim_tx_hex: Option<String>,
    pub signed_refund_tx_hex: Option<String>,
    pub cpfp_tx_hex: Option<String>,
    pub ark_exit_claim_tx_hex: Option<String>,
    pub ark_recovery_input_ids: Vec<String>,
    pub previous_refund_txids: Vec<[u8; 32]>,
    pub previous_ark_exit_claim_txids: Vec<[u8; 32]>,
    pub funding_conflict_scan_tip: Option<BlockRef>,
}

/// What the private state of a swap holds.
#[verifier::ext_equal]
pub struct StateView {
    pub version: u16,
    pub swap_id: Seq<char>,
    pub role: SwapRole,
    pub status: SwapStatus,
    pub coordinator: Seq<char>,
    pub claim_key_index: u32,
    pub ark_input_ids: Seq<Seq<char>>,
    pub relay: RelayView,
    pub adaptor_secret_hex: Option<Seq<char>>,
    pub btc_secret_nonce: Option<Seq<u8>>,
    pub funding_psbt_hex: Option<Seq<char>>,
    pub peer_transcript_hash_hex: Option<Seq<char>>,
    pub signed_claim_tx_hex: Option<Seq<char>>,
    pub signed_refund_tx_hex: Option<Seq<char>>,
    pub cpfp_tx_hex: Option<Seq<char>>,
    pub ark_exit_claim_tx_hex: Option<Seq<char>>,
    pub ark_recovery_input_ids: Seq<Seq<char>>,
    pub previous_refund_txids: Seq<[u8; 32]>,
    pub previous_ark_exit_claim_txids: Seq<[u8; 32]>,
    pub funding_conflict_scan_tip: Option<BlockRef>,
}

/// The bytes of an optional secret nonce.
pub open spec fn nonce_view(nonce: Option<Vec<u8>>) -> Option<Seq<u8>> {
    match nonce {
        Some(bytes) => Some(bytes@),
        None => None,
    }
}

impl View for StoredBtcArkSwap {
    type V = StateView;

    open spec fn view(&self) -> StateView {
        StateView {
            version: self.version,
            swap_id: self.swap_id@,
            role: self.role,
            status: self.status,
            coordinator: self.coordinator@,
            claim_key_index: self.claim_key_index,
            ark_input_ids: text_views(self.ark_input_ids@),
            relay: self.relay@,
            adaptor_secret_hex: text_view(self.adaptor_secret_hex),
            btc_secret_nonce: nonce_view(self.btc_secret_nonce),
            funding_psbt_hex: text_view(self.funding_psbt_hex),
            peer_transcript_hash_hex: text_view(self.peer_transcript_hash_hex),
            signed_claim_tx_hex: text_view(self.signed_claim_tx_hex),
            signed_refund_tx_hex: text_view(self.signed_refund_tx_hex),
            cpfp_tx_hex: text_view(self.cpfp_tx_hex),
            ark_exit_claim_tx_hex: text_view(self.ark_exit_claim_tx_hex),
            ark_recovery_input_ids: text_views(self.ark_recovery_input_ids@),
            previous_refund_txids: self.previous_refund_txids@,
            previous_ark_exit_claim_txids: self.previous_ark_exit_claim_txids@,
            funding_conflict_scan_tip: self.funding_conflict_scan_tip,
        }
    }
}

/// The state of a swap that has just begun.
pub open spec fn new_state(swap_id: Seq<u8>, role: SwapRole, coordinator: Seq<char>, claim_key_index: u32, relay: RelayView) -> StateView {
    StateView {
        version: VERSION,
        swap_id: hex_text(swap_id),
        role,
        status: relay.status,
        coordinator,
        claim_key_index,
        ark_input_ids: Seq::empty(),
        relay,
        adaptor_secret_hex: None,
        btc_secret_nonce: None,
        funding_psbt_hex: None,
        peer_transcript_hash_hex: None,
        signed_claim_tx_hex: None,
        signed_refund_tx_hex: None,
        cpfp_tx_hex: None,
        ark_exit_claim_tx_hex: None,
        ark_recovery_input_ids: Seq::empty(),
        previous_refund_txids: Seq::empty(),
        previous_ark_exit_claim_txids: Seq::empty(),
        funding_conflict_scan_tip: None,
    }
}

/// The frozen Ark inputs of a state, or why they cannot be told.
pub open spec fn accepted_ids(state: StateView) -> Result<Seq<VtxoId>, SwapError> {
    if state.ark_input_ids.len() == 0 {
        Err(SwapError::ArkInputsMissing)
    } else if state.relay.ark_transfer matches Some(transfer) && state.ark_input_ids != transfer.offer.ark_input_ids {
        Err(SwapError::ArkInputsChanged)
    } else {
        match ids_of_texts(state.ark_input_ids) {
            Some(ids) => Ok(ids),
            None => Err(SwapError::InvalidVtxoId),
        }
    }
}

/// The swap of a valid state, or why the state is not valid.
pub open spec fn state_swap(state: StateView) -> Result<Seq<u8>, SwapError> {
    if state.version != VERSION {
        Err(SwapError::UnsupportedState)
    } else {
        match swap_id_value(state.swap_id) {
            None => Err(SwapError::InvalidSwapId),
            Some(id) => if swap_refusal(state.relay, id) is Some {
                Err(swap_refusal(state.relay, id)->0)
            } else if state.ark_input_ids.len() > 0 && accepted_ids(state) is Err {
                Err(accepted_ids(state)->Err_0)
            } else {
                match state.peer_transcript_hash_hex {
                    None => Ok(id),
                    Some(expected) => match response_commitment(state.relay) {
                        Err(error) => Err(error),
                        Ok(digest) => if digest == expected {
                            Ok(id)
                        } else {
                            Err(SwapError::TranscriptMismatch)
                        },
                    },
                }
            },
        }
    }
}

impl StoredBtcArkSwap {
    /// The state of a swap that has just begun.
    pub fn new(swap_id: SwapId, role: SwapRole, coordinator: String, claim_key_index: u32, relay: RelayFile) -> (state: StoredBtcArkSwap)
        ensures
            state@ == new_state(swap_id@, role, coordinator@, claim_key_index, relay@),
    {
        let status = relay.status;
        let state = StoredBtcArkSwap {
            version: VERSION,
            swap_id: swap_id.to_string(),
            role,
            status,
            coordinator,
            claim_key_index,
            ark_input_ids: Vec::new(),
            relay,
            adaptor_secret_hex: None,
            btc_secret_nonce: None,
            funding_psbt_hex: None,
            peer_transcript_hash_hex: None,
            signed_claim_tx_hex: None,
            signed_refund_tx_hex: None,
            cpfp_tx_hex: None,
            ark_exit_claim_tx_hex: None,
            ark_recovery_input_ids: Vec::new(),
            previous_refund_txids: Vec::new(),
            previous_ark_exit_claim_txids: Vec::new(),
            funding_conflict_scan_tip: None,
        };
        assert(state@ =~= new_state(swap_id@, role, coordinator@, claim_key_index, relay@));
        state
    }

    /// The frozen Ark inputs.
    pub fn accepted_ark_input_ids(&self) -> (ids: Result<Vec<VtxoId>, SwapError>)
        ensures
            match ids {
                Ok(found) => accepted_ids(self@) == Ok::<Seq<VtxoId>, SwapError>(found@),
                Err(error) => accepted_ids(self@) == Err::<Seq<VtxoId>, SwapError>(error),
            },
    {
        assert(self@.ark_input_ids.len() == self.ark_input_ids@.len());
        if self.ark_input_ids.len() == 0 {
            return Err(SwapError::ArkInputsMissing);
        }
        match &self.relay.ark_transfer {
            Some(transfer) => {
                if !text_lists_eq(&self.ark_input_ids, &transfer.offer.ark_input_ids) {
                    return Err(SwapError::ArkInputsChanged);
                }
            },
            None => {},
        }
        parse_ids(&self.ark_input_ids)
    }

    /// Checks this state, and tells its swap.
    pub fn validate(&self) -> (id: Result<SwapId, SwapError>)
        ensures
            match id {
                Ok(found) => state_swap(self@) == Ok::<Seq<u8>, SwapError>(found@),
                Err(error) => state_swap(self@) == Err::<Seq<u8>, SwapError>(error),
            },
    {
        if self.version != VERSION {
            return Err(SwapError::UnsupportedState);
        }
        let swap_id = match SwapId::from_str(self.swap_id.as_str()) {
            Ok(id) => id,
            Err(_) => return Err(SwapError::InvalidSwapId),
        };
        match self.relay.require_swap(swap_id) {
            Ok(()) => {},
            Err(error) => return Err(error),
        }
        assert(self@.ark_input_ids.len() == self.ark_input_ids@.len());
        if self.ark_input_ids.len() > 0 {
            match self.accepted_ark_input_ids() {
                Ok(_) => {},
                Err(error) => return Err(error),
            }
        }
        match &self.peer_transcript_hash_hex {
            Some(expected) => match self.relay.response_commitment_hash_hex() {
                Ok(digest) => if *expected == digest {
                    Ok(swap_id)
                } else {
                    Err(SwapError::TranscriptMismatch)
                },
                Err(error) => Err(error),
            },
            None => Ok(swap_id),
        }
    }

    /// Checks that this state, as it was loaded, is the one of a swap and a role.
    pub fn require(&self, swap_id: SwapId, role: SwapRole) -> (result: Result<(), SwapError>)
        ensures
            match result {
                Ok(()) => state_swap(self@) == Ok::<Seq<u8>, SwapError>(swap_id@) && self@.role == role,
                Err(error) => match state_swap(self@) {
                    Err(reason) => error == reason,
                    Ok(id) => (id != swap_id@ || self@.role != role) && error == SwapError::StateMismatch,
                },
            },
    {
        match self.validate() {
            Ok(id) => if id.same(&swap_id) && self.role == role {
                Ok(())
            } else {
                Err(SwapError::StateMismatch)
            },
            Err(error) => Err(error),
        }
    }

    /// What may be shown of this state: the swap, the role and the status.
    pub fn debug_text(&self) -> (text: String)
        ensures
            text@ == state_debug_text(self@),
            letters_and_digits(self@.swap_id) ==> text@ == "StoredBtcArkSwap { swap_id: "@ + (seq!['"'] + self@.swap_id
                + seq!['"']) + ", role: "@ + role_name_text(self@.role) + ", status: "@ + status_name_text(self@.status)
                + ", .. }"@,
    {
        let mut text = "StoredBtcArkSwap { swap_id: ".to_owned();
        text.append(quote_text(self.swap_id.as_str()).as_str());
        text.append(", role: ");
        text.append(role_name(self.role));
        text.append(", status: ");
        text.append(status_name(self.status));
        text.append(", .. }");
        text
    }
}

/// What may be shown of a state: the swap, the role and the status.
pub open spec fn state_debug_text(state: StateView) -> Seq<char> {
    "StoredBtcArkSwap { swap_id: "@ + debug_of_text(state.swap_id) + ", role: "@ + role_name_text(state.role)
        + ", status: "@ + status_name_text(state.status) + ", .. }"@
}

/// A text as `{:?}` shows it: between quotes, with escapes.
pub uninterp spec fn debug_of_text(text: Seq<char>) -> Seq<char>;

/// Whether a text is made of ASCII letters and digits alone.
pub open spec fn letters_and_digits(text: Seq<char>) -> bool {
    forall|i: int|
        0 <= i < text.len() ==> '0' <= #[trigger] text[i] <= '9' || 'a' <= text[i] <= 'z' || 'A' <= text[i] <= 'Z'
}

/// The `Debug` of std's `str`, by `{:?}`: the text between quotes, with escapes where it needs them,
/// which ASCII letters and digits do not.
#[verifier::external_body]
fn quote_text(text: &str) -> (quoted: String)
    ensures
        quoted@ == debug_of_text(text@),
        letters_and_digits(text@) ==> quoted@ == seq!['"'] + text@ + seq!['"'],
{
    format!("{:?}", text)
}

/// The name of a role.
pub open spec fn role_name_text(role: SwapRole) -> Seq<char> {
    match role {
        SwapRole::BtcPayer => "BtcPayer"@,
        SwapRole::ArkPayer => "ArkPayer"@,
    }
}

/// The name of a status.
pub open spec fn status_name_text(status: SwapStatus) -> Seq<char> {
    match status {
        SwapStatus::Requested => "Requested"@,
        SwapStatus::Offered => "Offered"@,
        SwapStatus::BtcClaimReady => "BtcClaimReady"@,
        SwapStatus::BtcClaimed => "BtcClaimed"@,
        SwapStatus::ArkCompleted => "ArkCompleted"@,
        SwapStatus::Refunded => "Refunded"@,
        SwapStatus::Cancelled => "Cancelled"@,
        SwapStatus::ArkRecovering => "ArkRecovering"@,
        SwapStatus::ArkReclaimed => "ArkReclaimed"@,
    }
}

/// The name of a role.
fn role_name(role: SwapRole) -> (name: &'static str)
    ensures
        name@ == role_name_text(role),
{
    match role {
        SwapRole::BtcPayer => "BtcPayer",
        SwapRole::ArkPayer => "ArkPayer",
    }
}

/// The name of a status.
fn status_name(status: SwapStatus) -> (name: &'static str)
    ensures
        name@ == status_name_text(status),
{
    match status {
        SwapStatus::Requested => "Requested",
        SwapStatus::Offered => "Offered",
        SwapStatus::BtcClaimReady => "BtcClaimReady",
        SwapStatus::BtcClaimed => "BtcClaimed",
        SwapStatus::ArkCompleted => "ArkCompleted",
        SwapStatus::Refunded => "Refunded",
        SwapStatus::Cancelled => "Cancelled",
        SwapStatus::ArkRecovering => "ArkRecovering",
        SwapStatus::ArkReclaimed => "ArkReclaimed",
    }
}

/// What is shown of a state tells nothing but the swap, the role and the status.
pub proof fn law_debug_discloses_no_secret(a: StateView, b: StateView)
    requires
        a.swap_id == b.swap_id,
        a.role == b.role,
        a.status == b.status,
    ensures
        state_debug_text(a) == state_debug_text(b),
{
}

/// Whether nothing is left to do for a swap.
pub fn is_terminal(state: &StoredBtcArkSwap) -> (done: bool)
    ensures
        done == terminal(state@.role, state@.status),
{
    is_terminal_status(state.role, state.status)
}

/// The name of the file that holds a state.
pub open spec fn state_file_name(swap_id: Seq<char>, role: SwapRole) -> Seq<char> {
    "btc-ark-"@ + swap_id + "-"@ + role_slug_text(role) + ".json"@
}

/// A path with a relative part behind it.
pub open spec fn joined_path(base: Seq<char>, part: Seq<char>) -> Seq<char> {
    if base.len() == 0 {
        part
    } else if base.last() == '/' {
        base + part
    } else {
        base + seq!['/'] + part
    }
}

/// Puts a relative part behind a path.
fn join_path(base: &str, part: &str) -> (path: String)
    ensures
        path@ == joined_path(base@, part@),
{
    let len: usize = base.unicode_len();
    if len == 0 {
        return part.to_owned();
    }
    let mut path = base.to_owned();
    if base.get_char(len - 1) != '/' {
        proof {
            reveal_strlit("/");
            assert("/"@ =~= seq!['/']);
        }
        path.append("/");
    }
    path.append(part);
    path
}

/// The directory of a path that plainly is a file name in a directory, which is empty for a bare
/// name: nothing of such a path is read otherwise on one platform than on another.
pub open spec fn plain_parent(path: Seq<char>) -> Option<Seq<char>> {
    if path.len() == 0 || path.contains('\\') || path.contains(':') {
        None
    } else {
        match path.index_of_last('/') {
            None => if path == seq!['.'] {
                None
            } else {
                Some(Seq::empty())
            },
            Some(at) => {
                let name = path.skip(at + 1);
                if name.len() == 0 || name == seq!['.'] {
                    None
                } else if at == 0 {
                    Some(seq!['/'])
                } else if path[at - 1] == '/' || path[at - 1] == '.' || (path[0] == '/' && path[1] == '/') {
                    None
                } else {
                    Some(path.take(at))
                }
            },
        }
    }
}

/// `std::path::Path::parent`: the path without its final component, if it has one, which a bare name
/// and a name in a directory have, and the empty path has not. What else counts as a component is
/// the platform's matter, and is not stated.
#[verifier::external_body]
fn parent_path(path: &str) -> (parent: Option<String>)
    ensures
        parent matches Some(found) ==> found@.is_prefix_of(path@) && found@.len() < path@.len(),
        parent is Some || plain_parent(path@) is None,
        plain_parent(path@) is Some ==> parent->0@ == plain_parent(path@)->0,
{
    std::path::Path::new(path).parent().map(|parent| parent.to_string_lossy().into_owned())
}

/// The path of the file that holds the state of a swap and a role.
pub fn swap_state_path(datadir: &str, swap_id: &str, role: SwapRole) -> (path: String)
    ensures
        path@ == joined_path(joined_path(datadir@, "swap"@), state_file_name(swap_id@, role)),
{
    let directory = join_path(datadir, "swap");
    let mut name = "btc-ark-".to_owned();
    name.append(swap_id);
    name.append("-");
    name.append(role_slug(role));
    name.append(".json");
    join_path(directory.as_str(), name.as_str())
}

/// A directory that was told, or the current one where none was, or one without a name.
pub fn directory_or_current(parent: Option<String>) -> (directory: String)
    ensures
        directory@ == match parent {
            Some(found) if found@.len() > 0 => found@,
            _ => "."@,
        },
{
    match parent {
        Some(found) => if found.as_str().is_empty() {
            ".".to_owned()
        } else {
            found
        },
        None => ".".to_owned(),
    }
}

/// The directory that a path stands in, or the current one.
pub fn parent_directory(path: &str) -> (directory: String)
    ensures
        directory@ == "."@ || (directory@.is_prefix_of(path@) && 0 < directory@.len() < path@.len()),
        path@.len() == 0 ==> directory@ == "."@,
        plain_parent(path@) matches Some(parent) ==> directory@ == (if parent.len() > 0 {
            parent
        } else {
            "."@
        }),
{
    directory_or_current(parent_path(path))
}

/// `str::strip_suffix` of std: what stands before the suffix, where the text ends with it.
#[verifier::external_body]
fn before_suffix<'a>(text: &'a str, suffix: &str) -> (rest: Option<&'a str>)
    ensures
        match rest {
            Some(found) => text@ == found@ + suffix@,
            None => !suffix@.is_suffix_of(text@),
        },
{
    text.strip_suffix(suffix)
}

/// The swap of a file name, where it is the one of a state of the BTC payer.
pub open spec fn btc_payer_swap(name: Seq<char>) -> Option<Seq<char>> {
    let rest = name.skip("btc-ark-"@.len() as int);
    if !"btc-ark-"@.is_prefix_of(name) || !"-btc-payer.json"@.is_suffix_of(rest) {
        None
    } else {
        Some(rest.take(rest.len() - "-btc-payer.json"@.len()))
    }
}

/// The swap of a file name, where it is the one of a state of the BTC payer.
pub fn btc_payer_swap_of(name: &str) -> (swap: Option<&str>)
    ensures
        match swap {
            Some(found) => btc_payer_swap(name@) == Some(found@),
            None => btc_payer_swap(name@) is None,
        },
{
    match after_prefix(name, "btc-ark-") {
        Some(rest) => {
            assert(name@.take("btc-ark-"@.len() as int) =~= "btc-ark-"@);
            assert(name@.skip("btc-ark-"@.len() as int) =~= rest@);
            match before_suffix(rest, "-btc-payer.json") {
                Some(found) => {
                    assert(rest@.skip(rest@.len() - "-btc-payer.json"@.len()) =~= "-btc-payer.json"@);
                    assert(rest@.take(rest@.len() - "-btc-payer.json"@.len()) =~= found@);
                    Some(found)
                },
                None => None,
            }
        },
        None => None,
    }
}

/// The file name of a state of the BTC payer tells its swap.
pub proof fn law_file_name_tells_the_swap(swap_id: Seq<char>)
    ensures
        btc_payer_swap(state_file_name(swap_id, SwapRole::BtcPayer)) == Some(swap_id),
{
    reveal_strlit("-");
    reveal_strlit("btc-payer");
    reveal_strlit(".json");
    reveal_strlit("-btc-payer.json");
    let name = state_file_name(swap_id, SwapRole::BtcPayer);
    let rest = swap_id + "-btc-payer.json"@;
    assert("-"@ + "btc-payer"@ + ".json"@ =~= "-btc-payer.json"@);
    assert(name =~= "btc-ark-"@ + rest);
    assert(name.take("btc-ark-"@.len() as int) =~= "btc-ark-"@);
    assert(name.skip("btc-ark-"@.len() as int) =~= rest);
    assert(rest.skip(rest.len() - "-btc-payer.json"@.len()) =~= "-btc-payer.json"@);
    assert(rest.take(rest.len() - "-btc-payer.json"@.len()) =~= swap_id);
}

/// Whether a state still needs its funding inputs at a tip.
pub open spec fn reserves_inputs(state: StateView, tip: u32) -> bool {
    &&& state.status != SwapStatus::ArkCompleted && state.status != SwapStatus::ArkReclaimed && state.status
        != SwapStatus::Refunded && state.status != SwapStatus::Cancelled
    &&& state.relay.btc_claim_adaptor is Some || state.relay.request.refund_height > tip
}

/// Whether two transactions spend a common output.
pub open spec fn share_input(a: TransactionView, b: TransactionView) -> bool {
    exists|i: int, k: int|
        0 <= i < a.input.len() && 0 <= k < b.input.len() && (#[trigger] a.input[i]).previous_output == (
        #[trigger] b.input[k]).previous_output
}

/// Whether two transactions spend a common output.
fn shares_input(a: &Transaction, b: &Transaction) -> (found: bool)
    ensures
        found == share_input(a@, b@),
{
    let mut i: usize = 0;
    while i < a.input.len()
        invariant
            i <= a.input.len(),
            forall|j: int, k: int|
                0 <= j < i && 0 <= k < b@.input.len() ==> (#[trigger] a@.input[j]).previous_output != (
                #[trigger] b@.input[k]).previous_output,
        decreases a.input.len() - i,
    {
        let mut k: usize = 0;
        while k < b.input.len()
            invariant
                i < a.input.len(),
                k <= b.input.len(),
                forall|l: int|
                    0 <= l < k ==> a@.input[i as int].previous_output != (#[trigger] b@.input[l]).previous_output,
            decreases b.input.len() - k,
        {
            assert(a@.input[i as int] == a.input[i as int]@);
            assert(b@.input[k as int] == b.input[k as int]@);
            if a.input[i].previous_output.same(&b.input[k].previous_output) {
                return true;
            }
            k += 1;
        }
        i += 1;
    }
    false
}

/// Why a funding cannot be promised beside an open swap, if it cannot.
pub open spec fn reservation_refusal(funding: TransactionView, state: StateView, tip: u32) -> Option<SwapError> {
    if !reserves_inputs(state, tip) {
        None
    } else {
        match tx_of_hex(state.relay.request.funding_template_hex) {
            None => Some(SwapError::InvalidTransaction),
            Some(reserved) => if share_input(funding, reserved) {
                Some(SwapError::FundingInputsReserved)
            } else {
                None
            },
        }
    }
}

/// Checks that a funding does not promise an input that an open local swap of the BTC payer has
/// promised. Ordinary wallet operations do not take part in this reservation.
pub fn ensure_funding_inputs_available(funding: &Transaction, state: &StoredBtcArkSwap, tip: u32) -> (result: Result<
    (),
    SwapError,
>)
    ensures
        match result {
            Ok(()) => reservation_refusal(funding@, state@, tip) is None,
            Err(error) => reservation_refusal(funding@, state@, tip) == Some(error),
        },
{
    if matches!(
        state.status,
        SwapStatus::ArkCompleted | SwapStatus::ArkReclaimed | SwapStatus::Refunded | SwapStatus::Cancelled
    ) || (state.relay.btc_claim_adaptor.is_none() && state.relay.request.refund_height <= tip) {
        return Ok(());
    }
    match tx_from_hex(state.relay.request.funding_template_hex.as_str()) {
        Ok(reserved) => if shares_input(funding, &reserved) {
            Err(SwapError::FundingInputsReserved)
        } else {
            Ok(())
        },
        Err(error) => Err(error),
    }
}

/// A funding is refused beside a swap exactly where both spend a common output, and the swap still needs
/// its own: it is not settled, and has a funding or can still get one before its refund height.
pub proof fn law_open_swap_keeps_its_inputs(funding: TransactionView, state: StateView, tip: u32)
    requires
        tx_of_hex(state.relay.request.funding_template_hex) is Some,
    ensures
        ({
            let template = tx_of_hex(state.relay.request.funding_template_hex)->0;
            let open = match state.status {
                SwapStatus::Requested => true,
                SwapStatus::Offered => true,
                SwapStatus::BtcClaimReady => true,
                SwapStatus::BtcClaimed => true,
                SwapStatus::ArkRecovering => true,
                _ => false,
            };
            let common = exists|i: int, k: int|
                0 <= i < funding.input.len() && 0 <= k < template.input.len() && (
                #[trigger] funding.input[i]).previous_output == (#[trigger] template.input[k]).previous_output;
            reservation_refusal(funding, state, tip) is Some <==> open && (state.relay.btc_claim_adaptor is Some || tip
                < state.relay.request.refund_height) && common
        }),
        reservation_refusal(funding, state, tip) matches Some(error) ==> error == SwapError::FundingInputsReserved,
{
}

/// The Ark inputs of a swap are told exactly where there are some, they are those of its transfer, where it
/// has one, and all of them can be read; they are told in their order.
pub proof fn law_accepted_inputs_are_those_of_the_transfer(state: StateView)
    ensures
        accepted_ids(state) is Ok <==> state.ark_input_ids.len() > 0 && (state.relay.ark_transfer matches Some(transfer)
            ==> transfer.offer.ark_input_ids == state.ark_input_ids) && forall|i: int|
            0 <= i < state.ark_input_ids.len() ==> outpoint_of_text(#[trigger] state.ark_input_ids[i]) is Some,
        accepted_ids(state) matches Ok(ids) ==> ids.len() == state.ark_input_ids.len() && forall|i: int|
            0 <= i < ids.len() ==> outpoint_of_text(state.ark_input_ids[i]) == Some((#[trigger] ids[i]).point),
{
}

/// A stored state is taken exactly where it has the version of this format, its relay file is for its swap,
/// its Ark inputs, where it has some, are those of its transfer, and a transcript that it pins is the one
/// of its relay file.
pub proof fn law_stored_state_is_taken_exactly(state: StateView)
    ensures
        state_swap(state) is Ok <==> ({
            &&& state.version == 3
            &&& swap_id_value(state.swap_id) matches Some(id) && swap_refusal(state.relay, id) is None
            &&& state.ark_input_ids.len() > 0 ==> accepted_ids(state) is Ok
            &&& state.peer_transcript_hash_hex matches Some(pinned) ==> (response_commitment(state.relay) matches Ok(digest)
                && digest == pinned)
        }),
        state_swap(state) matches Ok(id) ==> swap_id_value(state.swap_id) == Some(id),
{
}

/// A new state is for its swap and role, with its relay file and key, and holds nothing else yet.
pub proof fn law_new_state_is_bare(
    swap_id: Seq<u8>,
    role: SwapRole,
    coordinator: Seq<char>,
    claim_key_index: u32,
    relay: RelayView,
)
    requires
        swap_id.len() == 32,
    ensures
        ({
            let state = new_state(swap_id, role, coordinator, claim_key_index, relay);
            &&& state.version == 3 && swap_id_value(state.swap_id) == Some(swap_id) && state.role == role
            &&& state.relay == relay && state.status == relay.status && state.coordinator == coordinator
            &&& state.claim_key_index == claim_key_index
            &&& state.adaptor_secret_hex is None && state.btc_secret_nonce is None && state.funding_psbt_hex is None
            &&& state.peer_transcript_hash_hex is None && state.signed_claim_tx_hex is None
            &&& state.signed_refund_tx_hex is None && state.cpfp_tx_hex is None && state.ark_exit_claim_tx_hex is None
            &&& state.ark_input_ids.len() == 0 && state.ark_recovery_input_ids.len() == 0
            &&& state.previous_refund_txids.len() == 0 && state.previous_ark_exit_claim_txids.len() == 0
            &&& state.funding_conflict_scan_tip is None
        }),
{
    law_hex_round_trip(swap_id);
}

/// The states of two swaps or roles are kept in different files of a directory.
pub proof fn law_states_have_their_own_files(a: Seq<char>, b: Seq<char>, a_role: SwapRole, b_role: SwapRole)
    requires
        a.len() == b.len(),
        a != b || a_role != b_role,
    ensures
        state_file_name(a, a_role) != state_file_name(b, b_role),
{
    reveal_strlit("btc-ark-");
    reveal_strlit("-");
    reveal_strlit("btc-payer");
    reveal_strlit("ark-payer");
    reveal_strlit(".json");
    let (x, y) = (state_file_name(a, a_role), state_file_name(b, b_role));
    if x == y {
        assert(x.subrange(8, 8 + a.len() as int) =~= a);
        assert(y.subrange(8, 8 + b.len() as int) =~= b);
        assert(x[8 + a.len() as int + 1] == role_slug_text(a_role)[0]);
        assert(y[8 + b.len() as int + 1] == role_slug_text(b_role)[0]);
    }
}

/// A file is taken for a state of the BTC payer only where it has the name of one.
pub proof fn law_other_files_are_no_states(name: Seq<char>)
    requires
        btc_payer_swap(name) is Some,
    ensures
        name == "btc-ark-"@ + btc_payer_swap(name)->0 + "-btc-payer.json"@,
{
    let front = "btc-ark-"@;
    let back = "-btc-payer.json"@;
    let rest = name.skip(front.len() as int);
    let swap = btc_payer_swap(name)->0;
    assert(name.subrange(0, front.len() as int) =~= front);
    assert(rest.subrange(rest.len() - back.len(), rest.len() as int) =~= back);
    assert(rest =~= swap + back);
    assert(name =~= front + rest);
    assert(front + (swap + back) =~= front + swap + back);
}

} // verus!
