//! Requesting a swap: the BTC payer prepares a funding template and publishes a one-use nonce.

use vstd::prelude::*;

use crate::ark_types::{ark_address_of_text, parse_ark_address};
use crate::artifacts::{BtcArkRequestArtifact, RequestView};
use crate::bytes::text_views;
use crate::chain::{answer_views, AnswerView, ChainAnswer};
use crate::error::SwapError;
use crate::fee::fee_rate_from_sat_vb;
use crate::flow::{check_error, passed, Action, Reply};
use crate::hex::{hex_text, hex_value, law_hex_round_trip};
use crate::keys::{point_of, SecretKey};
use crate::lock::{key_path_key, key_path_script, taproot_script};
use crate::musig::{is_public_nonce, nonce_pair, stored_for};
use crate::relay::{option_view, request_relay, RelayFile, RelayView};
use crate::response::{height_refusal, request_refusal};
use crate::role::{SwapRole, SwapStatus};
use crate::script::LOCK_TIME_THRESHOLD;
use crate::state::{new_state, StateView, StoredBtcArkSwap};
use crate::swap_id::{swap_id_value, SwapId};
use crate::tx::{
    hex_of_tx, hex_of_txout, output_views, outputs_copy, Transaction, TransactionView, TxOut, TxOutView,
};
use crate::validation::{funding_inputs, verify_funding_inputs};

verus! {

/// What a BTC payer asks for.
#[derive(Debug, PartialEq, Eq)]
pub struct RequestArgs {
    pub amount: u64,
    pub ark_receive: String,
    pub fee_rate: u64,
    pub refund_delay: u32,
    pub confirmations: u32,
    pub safety_margin: u32,
}

/// What a BTC payer asks for.
#[verifier::ext_equal]
pub struct ArgsView {
    pub amount: u64,
    pub ark_receive: Seq<char>,
    pub fee_rate: u64,
    pub refund_delay: u32,
    pub confirmations: u32,
    pub safety_margin: u32,
}

impl View for RequestArgs {
    type V = ArgsView;

    open spec fn view(&self) -> ArgsView {
        ArgsView {
            amount: self.amount,
            ark_receive: self.ark_receive@,
            fee_rate: self.fee_rate,
            refund_delay: self.refund_delay,
            confirmations: self.confirmations,
            safety_margin: self.safety_margin,
        }
    }
}

/// Why a request that is already there is not the one that is asked for, if it is not.
pub open spec fn repeat_refusal(args: ArgsView, relay: RelayView, state: StateView) -> Option<SwapError> {
    let request = state.relay.request;
    if ark_address_of_text(args.ark_receive) is None {
        Some(SwapError::InvalidArkAddress)
    } else if request.amount_sat != args.amount || request.ark_receive != (ark_address_of_text(args.ark_receive)->0).0
        || request.fee_rate_sat_vb != args.fee_rate || request.minimum_funding_confirmations != args.confirmations
        || request.safety_margin_blocks != args.safety_margin || request.refund_height - request.created_height
        != args.refund_delay {
        Some(SwapError::ArgumentsChanged)
    } else if relay.request != request {
        Some(SwapError::RequestChanged)
    } else {
        None
    }
}

/// Checks that a request that is already there is the one that is asked for, so that it need not
/// be made again.
pub fn check_repeated_request(args: &RequestArgs, relay: &RelayFile, state: &StoredBtcArkSwap) -> (result: Result<
    (),
    SwapError,
>)
    ensures
        match result {
            Ok(()) => repeat_refusal(args@, relay@, state@) is None,
            Err(error) => repeat_refusal(args@, relay@, state@) == Some(error),
        },
{
    let request = &state.relay.request;
    let (ark_receive, _) = match parse_ark_address(args.ark_receive.as_str()) {
        Ok(address) => address,
        Err(error) => return Err(error),
    };
    let delay = request.refund_height.checked_sub(request.created_height);
    if request.amount_sat != args.amount || request.ark_receive != ark_receive || request.fee_rate_sat_vb
        != args.fee_rate || request.minimum_funding_confirmations != args.confirmations || request.safety_margin_blocks
        != args.safety_margin {
        return Err(SwapError::ArgumentsChanged);
    }
    match delay {
        Some(blocks) if blocks == args.refund_delay => {},
        _ => return Err(SwapError::ArgumentsChanged),
    }
    if relay.request.same(request) {
        Ok(())
    } else {
        Err(SwapError::RequestChanged)
    }
}

/// Why the numbers of a request are not taken, if they are not.
pub open spec fn args_refusal(args: ArgsView) -> Option<SwapError> {
    if args.amount == 0 || args.confirmations == 0 || args.safety_margin == 0 {
        Some(SwapError::InvalidSafetyParameters)
    } else if args.safety_margin < args.confirmations {
        Some(SwapError::MarginBelowConfirmations)
    } else if args.confirmations + args.safety_margin > u32::MAX {
        Some(SwapError::HeightOverflow)
    } else if args.refund_delay <= args.confirmations + args.safety_margin {
        Some(SwapError::WindowTooShort)
    } else {
        None
    }
}

/// Checks the numbers of a request.
fn check_args(args: &RequestArgs) -> (result: Result<(), SwapError>)
    ensures
        match result {
            Ok(()) => args_refusal(args@) is None,
            Err(error) => args_refusal(args@) == Some(error),
        },
{
    if args.amount == 0 || args.confirmations == 0 || args.safety_margin == 0 {
        return Err(SwapError::InvalidSafetyParameters);
    }
    if args.safety_margin < args.confirmations {
        return Err(SwapError::MarginBelowConfirmations);
    }
    match args.confirmations.checked_add(args.safety_margin) {
        Some(least) => if args.refund_delay <= least {
            Err(SwapError::WindowTooShort)
        } else {
            Ok(())
        },
        None => Err(SwapError::HeightOverflow),
    }
}

/// What is known of a request that is being made.
pub struct RequestDraft {
    pub ark_receive: String,
    pub created_height: u32,
    pub refund_height: u32,
    pub secret: SecretKey,
    pub index: u32,
}

/// What is known of a request that is being made.
#[verifier::ext_equal]
pub struct DraftView {
    pub ark_receive: Seq<char>,
    pub created_height: u32,
    pub refund_height: u32,
    pub secret: Seq<u8>,
    pub index: u32,
}

impl View for RequestDraft {
    type V = DraftView;

    open spec fn view(&self) -> DraftView {
        DraftView {
            ark_receive: self.ark_receive@,
            created_height: self.created_height,
            refund_height: self.refund_height,
            secret: self.secret@,
            index: self.index,
        }
    }
}

/// Where the request flow is.
#[allow(inconsistent_fields)]
pub enum RequestPhase {
    Begin,
    Looked,
    Repeated { relay: RelayFile },
    Validated { ark_receive: String },
    Tip { ark_receive: String },
    Key { ark_receive: String, created_height: u32, refund_height: u32 },
    Sync { draft: RequestDraft },
    Prepare { draft: RequestDraft, script: Vec<u8> },
    Reserved { draft: RequestDraft, script: Vec<u8>, tx: Transaction, prevouts: Vec<Option<TxOut>>, psbt_hex: String },
    Live { draft: RequestDraft, tx: Transaction, prevouts: Vec<TxOut>, slot: u32, psbt_hex: String },
    Stored,
    Published,
}

/// The first output, from one on, that is the placeholder of the lock.
pub open spec fn placeholder_from(outputs: Seq<TxOutView>, placeholder: TxOutView, at: nat) -> Option<nat>
    decreases outputs.len() - at,
{
    if at >= outputs.len() {
        None
    } else if outputs[at as int] == placeholder {
        Some(at)
    } else {
        placeholder_from(outputs, placeholder, at + 1)
    }
}

/// The first output that is the placeholder of the lock.
fn find_placeholder(tx: &Transaction, placeholder: &TxOut) -> (slot: Option<usize>)
    ensures
        match slot {
            Some(found) => placeholder_from(tx@.output, placeholder@, 0) == Some(found as nat),
            None => placeholder_from(tx@.output, placeholder@, 0) is None,
        },
{
    assert(tx@.output.len() == tx.output@.len());
    let mut i: usize = 0;
    while i < tx.output.len()
        invariant
            i <= tx.output.len(),
            tx@.output.len() == tx.output@.len(),
            placeholder_from(tx@.output, placeholder@, 0) == placeholder_from(tx@.output, placeholder@, i as nat),
        decreases tx.output.len() - i,
    {
        assert(tx@.output[i as int] == tx.output[i as int]@);
        if tx.output[i].same(placeholder) {
            return Some(i);
        }
        i += 1;
    }
    None
}

/// The prevouts of a funding, if each is known.
pub open spec fn known_prevouts(prevouts: Seq<Option<TxOut>>) -> Option<Seq<TxOutView>> {
    if forall|i: int| 0 <= i < prevouts.len() ==> (#[trigger] prevouts[i]) is Some {
        Some(prevouts.map_values(|prevout: Option<TxOut>| prevout->0@))
    } else {
        None
    }
}

/// The prevouts of a funding, if each is known.
fn collect_prevouts(prevouts: &Vec<Option<TxOut>>) -> (known: Option<Vec<TxOut>>)
    ensures
        match known {
            Some(found) => known_prevouts(prevouts@) == Some(output_views(found@)),
            None => known_prevouts(prevouts@) is None,
        },
{
    let mut known: Vec<TxOut> = Vec::new();
    let mut i: usize = 0;
    while i < prevouts.len()
        invariant
            i <= prevouts.len(),
            known.len() == i,
            forall|k: int| 0 <= k < i ==> (#[trigger] prevouts@[k]) is Some && known[k]@ == prevouts@[k]->0@,
        decreases prevouts.len() - i,
    {
        match &prevouts[i] {
            Some(prevout) => known.push(prevout.clone()),
            None => {
                assert(prevouts@[i as int] is None);
                return None;
            },
        }
        i += 1;
    }
    proof {
        let views = output_views(known@);
        let expected = prevouts@.map_values(|prevout: Option<TxOut>| prevout->0@);
        assert forall|k: int| 0 <= k < views.len() implies views[k] == expected[k] by {
            assert(prevouts@[k] is Some);
        }
        assert(views =~= expected);
    }
    Some(known)
}

/// The texts of some outputs.
pub open spec fn txout_texts(outputs: Seq<TxOutView>) -> Seq<Seq<char>> {
    outputs.map_values(|output: TxOutView| hex_of_txout(output))
}

/// The texts of some outputs.
fn write_txouts(outputs: &Vec<TxOut>) -> (texts: Vec<String>)
    ensures
        text_views(texts@) == txout_texts(output_views(outputs@)),
{
    let mut texts: Vec<String> = Vec::new();
    let mut i: usize = 0;
    while i < outputs.len()
        invariant
            i <= outputs.len(),
            texts.len() == i,
            forall|k: int| 0 <= k < i ==> (#[trigger] texts[k])@ == hex_of_txout(outputs[k]@),
        decreases outputs.len() - i,
    {
        texts.push(outputs[i].to_hex());
        i += 1;
    }
    assert(text_views(texts@) =~= txout_texts(output_views(outputs@)));
    texts
}

/// The request of a draft, before its nonce is there.
pub open spec fn request_of(
    args: ArgsView,
    draft: DraftView,
    tx: TransactionView,
    prevouts: Seq<TxOutView>,
    slot: u32,
) -> RequestView {
    RequestView {
        amount_sat: args.amount,
        ark_receive: draft.ark_receive,
        btc_payer_claim_pubkey: hex_text(point_of(draft.secret)),
        btc_refund_pubkey: hex_text(point_of(draft.secret).subrange(1, 33)),
        fee_rate_sat_vb: args.fee_rate,
        created_height: draft.created_height,
        refund_height: draft.refund_height,
        minimum_funding_confirmations: args.confirmations,
        safety_margin_blocks: args.safety_margin,
        funding_template_hex: hex_of_tx(tx),
        funding_output_index: slot,
        funding_prevouts_hex: txout_texts(prevouts),
        btc_payer_public_nonce_hex: Seq::empty(),
    }
}

/// Whether a state is the one of a request, with some identifier and some nonce, whose secret part is
/// stored beside the public one.
pub open spec fn requests(
    state: StateView,
    coordinator: Seq<char>,
    index: u32,
    psbt_hex: Seq<char>,
    request: RequestView,
    id: Seq<u8>,
    stored: Seq<u8>,
    public: Seq<u8>,
) -> bool {
    &&& id.len() == 32 && is_public_nonce(public) && stored_for(stored, public)
    &&& state == (StateView {
        funding_psbt_hex: Some(psbt_hex),
        btc_secret_nonce: Some(stored),
        ..new_state(
            id,
            SwapRole::BtcPayer,
            coordinator,
            index,
            request_relay(id, RequestView { btc_payer_public_nonce_hex: hex_text(public), ..request }),
        )
    })
}

/// What follows when the inputs are checked: the state is made, and stored with the secret nonce
/// before the request is published.
pub open spec fn request_stores(
    args: ArgsView,
    coordinator: Seq<char>,
    draft: DraftView,
    tx: TransactionView,
    prevouts: Seq<TxOutView>,
    slot: u32,
    psbt_hex: Seq<char>,
    log: Seq<AnswerView>,
    before: Option<StateView>,
    after: Option<StateView>,
    next: Result<(RequestPhase, Action), SwapError>,
) -> bool {
    let step = funding_inputs(log, 0, tx.input, prevouts);
    if !(step is Pass) {
        after == before && next == Err::<(RequestPhase, Action), SwapError>(check_error(step))
    } else {
        &&& next matches Ok((RequestPhase::Stored, Action::StoreState))
        &&& after matches Some(state) && exists|id: Seq<u8>, stored: Seq<u8>, public: Seq<u8>| #[trigger]
            requests(
                state,
                coordinator,
                draft.index,
                psbt_hex,
                request_of(args, draft, tx, prevouts, slot),
                id,
                stored,
                public,
            )
    }
}

/// What follows when a funding is reserved: its placeholder and its prevouts are told.
pub open spec fn request_checks(
    args: ArgsView,
    draft: DraftView,
    script: Seq<u8>,
    tx: TransactionView,
    prevouts: Seq<Option<TxOut>>,
    psbt_hex: Seq<char>,
    next: Result<(RequestPhase, Action), SwapError>,
) -> bool {
    match placeholder_from(tx.output, TxOutView { value: args.amount, script_pubkey: script }, 0) {
        None => next == Err::<(RequestPhase, Action), SwapError>(SwapError::PlaceholderMissing),
        Some(found) => match known_prevouts(prevouts) {
            None => next == Err::<(RequestPhase, Action), SwapError>(SwapError::PrevoutMissing),
            Some(known) => if found > u32::MAX {
                next == Err::<(RequestPhase, Action), SwapError>(SwapError::TemplateSlot)
            } else {
                next matches Ok(
                    (
                        RequestPhase::Live {
                            draft: kept,
                            tx: kept_tx,
                            prevouts: kept_prevouts,
                            slot,
                            psbt_hex: kept_psbt,
                        },
                        Action::CheckFundingInputs { tx: asked, prevouts: asked_prevouts },
                    ),
                ) && kept@ == draft && kept_tx@ == tx && output_views(kept_prevouts@) == known && slot == found
                    && kept_psbt@ == psbt_hex && asked@ == tx && output_views(asked_prevouts@) == known
            },
        },
    }
}

/// What the request flow does next.
pub open spec fn request_next(
    args: ArgsView,
    coordinator: Seq<char>,
    phase: RequestPhase,
    reply: Reply,
    before: Option<StateView>,
    after: Option<StateView>,
    next: Result<(RequestPhase, Action), SwapError>,
) -> bool {
    match (phase, reply) {
        (RequestPhase::Begin, Reply::Done) => after == before && next matches Ok(
            (RequestPhase::Looked, Action::FindRelay),
        ),
        (RequestPhase::Looked, Reply::MaybeRelay(Some(relay))) => after == before && match swap_id_value(
            relay@.swap_id,
        ) {
            None => next == Err::<(RequestPhase, Action), SwapError>(SwapError::InvalidSwapId),
            Some(id) => next matches Ok(
                (RequestPhase::Repeated { relay: kept }, Action::LoadState { swap_id, role }),
            ) && kept@ == relay@ && swap_id@ == id && role == SwapRole::BtcPayer,
        },
        (RequestPhase::Repeated { relay }, Reply::State(stored)) => match repeat_refusal(args, relay@, stored@) {
            Some(error) => after == before && next == Err::<(RequestPhase, Action), SwapError>(error),
            None => after == Some(stored@) && next matches Ok((RequestPhase::Published, Action::End)),
        },
        (RequestPhase::Looked, Reply::MaybeRelay(None)) => after == before && match args_refusal(args) {
            Some(error) => next == Err::<(RequestPhase, Action), SwapError>(error),
            None => match ark_address_of_text(args.ark_receive) {
                None => next == Err::<(RequestPhase, Action), SwapError>(SwapError::InvalidArkAddress),
                Some((normal, _)) => next matches Ok(
                    (RequestPhase::Validated { ark_receive }, Action::ValidateArkAddress(address)),
                ) && ark_receive@ == normal && address@ == normal,
            },
        },
        (RequestPhase::Validated { ark_receive }, Reply::Done) => after == before && (if args.fee_rate == 0 {
            next == Err::<(RequestPhase, Action), SwapError>(SwapError::FeeRateZero)
        } else if args.fee_rate > u32::MAX {
            next == Err::<(RequestPhase, Action), SwapError>(SwapError::FeeRateTooLarge)
        } else {
            next matches Ok((RequestPhase::Tip { ark_receive: kept }, Action::Tip)) && kept@ == ark_receive@
        }),
        (RequestPhase::Tip { ark_receive }, Reply::Tip(tip)) => after == before && (if tip + args.refund_delay
            > u32::MAX {
            next == Err::<(RequestPhase, Action), SwapError>(SwapError::HeightOverflow)
        } else if tip + args.refund_delay >= LOCK_TIME_THRESHOLD {
            next == Err::<(RequestPhase, Action), SwapError>(SwapError::InvalidRefundHeight)
        } else {
            next matches Ok(
                (RequestPhase::Key { ark_receive: kept, created_height, refund_height }, Action::NewKey),
            ) && kept@ == ark_receive@ && created_height == tip && refund_height == tip + args.refund_delay
        }),
        (RequestPhase::Key { ark_receive, created_height, refund_height }, Reply::NewKey(secret, index)) => after
            == before && (next matches Ok((RequestPhase::Sync { draft }, Action::SyncOnchain)) && draft@ == (DraftView {
            ark_receive: ark_receive@,
            created_height,
            refund_height,
            secret: secret@,
            index,
        })),
        (RequestPhase::Sync { draft }, Reply::Done) => after == before && match key_path_key(
            point_of(draft@.secret).subrange(1, 33),
        ) {
            None => next == Err::<(RequestPhase, Action), SwapError>(SwapError::InvalidTweak),
            Some(key) => if args.fee_rate == 0 {
                next == Err::<(RequestPhase, Action), SwapError>(SwapError::FeeRateZero)
            } else if args.fee_rate > u32::MAX {
                next == Err::<(RequestPhase, Action), SwapError>(SwapError::FeeRateTooLarge)
            } else {
                next matches Ok(
                    (
                        RequestPhase::Prepare { draft: kept, script },
                        Action::PrepareFunding { script: paid, amount, rate },
                    ),
                ) && kept@ == draft@ && script@ == taproot_script(key) && paid@ == script@ && amount == args.amount && rate
                    == 250 * args.fee_rate
            },
        },
        (RequestPhase::Prepare { draft, script }, Reply::Funding { tx, prevouts, psbt_hex }) => after == before && (
        next matches Ok(
            (
                RequestPhase::Reserved {
                    draft: kept,
                    script: kept_script,
                    tx: kept_tx,
                    prevouts: kept_prevouts,
                    psbt_hex: kept_psbt,
                },
                Action::CheckReservations { tx: asked, height },
            ),
        ) && kept@ == draft@ && kept_script@ == script@ && kept_tx@ == tx@ && kept_prevouts@ == prevouts@ && kept_psbt@
            == psbt_hex@ && asked@ == tx@ && height == draft@.created_height),
        (RequestPhase::Reserved { draft, script, tx, prevouts, psbt_hex }, Reply::Done) => after == before
            && request_checks(args, draft@, script@, tx@, prevouts@, psbt_hex@, next),
        (RequestPhase::Live { draft, tx, prevouts, slot, psbt_hex }, Reply::Log(log)) => request_stores(
            args,
            coordinator,
            draft@,
            tx@,
            output_views(prevouts@),
            slot,
            psbt_hex@,
            answer_views(log@),
            before,
            after,
            next,
        ),
        (RequestPhase::Stored, Reply::Done) => after == before && next matches Ok(
            (RequestPhase::Published, Action::StoreRelay),
        ),
        (RequestPhase::Published, Reply::Done) => after == before && next matches Ok(
            (RequestPhase::Published, Action::End),
        ),
        _ => after == before && next == Err::<(RequestPhase, Action), SwapError>(SwapError::UnexpectedReply),
    }
}

/// Goes on when a funding is reserved.
fn check_template(
    args: &RequestArgs,
    draft: RequestDraft,
    script: Vec<u8>,
    tx: Transaction,
    prevouts: Vec<Option<TxOut>>,
    psbt_hex: String,
) -> (next: Result<(RequestPhase, Action), SwapError>)
    ensures
        request_checks(args@, draft@, script@, tx@, prevouts@, psbt_hex@, next),
{
    let placeholder = TxOut { value: args.amount, script_pubkey: script };
    let slot: usize = match find_placeholder(&tx, &placeholder) {
        Some(slot) => slot,
        None => return Err(SwapError::PlaceholderMissing),
    };
    let known = match collect_prevouts(&prevouts) {
        Some(known) => known,
        None => return Err(SwapError::PrevoutMissing),
    };
    if slot as u64 > 0xffff_ffff {
        return Err(SwapError::TemplateSlot);
    }
    let asked = tx.clone();
    let asked_prevouts = outputs_copy(&known);
    Ok(
        (
            RequestPhase::Live { draft, tx, prevouts: known, slot: slot as u32, psbt_hex },
            Action::CheckFundingInputs { tx: asked, prevouts: asked_prevouts },
        ),
    )
}

/// Goes on when the inputs are checked.
fn make_request(
    args: &RequestArgs,
    coordinator: &String,
    draft: RequestDraft,
    tx: &Transaction,
    prevouts: &Vec<TxOut>,
    slot: u32,
    psbt_hex: String,
    log: &Vec<ChainAnswer>,
    state: &mut Option<StoredBtcArkSwap>,
) -> (next: Result<(RequestPhase, Action), SwapError>)
    ensures
        request_stores(
            args@,
            coordinator@,
            draft@,
            tx@,
            output_views(prevouts@),
            slot,
            psbt_hex@,
            answer_views(log@),
            option_view(*old(state)),
            option_view(*final(state)),
            next,
        ),
{
    match passed(verify_funding_inputs(log, 0, tx, prevouts)) {
        Ok(()) => {},
        Err(error) => return Err(error),
    }
    let (stored, nonce) = nonce_pair(&draft.secret);
    let key = draft.secret.public_key();
    let swap_id = SwapId::random();
    let request = BtcArkRequestArtifact {
        amount_sat: args.amount,
        ark_receive: draft.ark_receive.clone(),
        btc_payer_claim_pubkey: key.to_string(),
        btc_refund_pubkey: key.x_only_public_key().to_string(),
        fee_rate_sat_vb: args.fee_rate,
        created_height: draft.created_height,
        refund_height: draft.refund_height,
        minimum_funding_confirmations: args.confirmations,
        safety_margin_blocks: args.safety_margin,
        funding_template_hex: tx.to_hex(),
        funding_output_index: slot,
        funding_prevouts_hex: write_txouts(prevouts),
        btc_payer_public_nonce_hex: nonce.to_hex(),
    };
    let ghost made = request_of(args@, draft@, tx@, output_views(prevouts@), slot);
    assert(request@ =~= (RequestView { btc_payer_public_nonce_hex: hex_text(nonce@), ..made }));
    let relay = RelayFile::new_request(swap_id, request);
    let mut fresh = StoredBtcArkSwap::new(swap_id, SwapRole::BtcPayer, coordinator.clone(), draft.index, relay);
    let ghost begun = fresh@;
    let mut secret_nonce: Vec<u8> = Vec::new();
    secret_nonce.extend_from_slice(stored.as_slice());
    assert(secret_nonce@ =~= stored@);
    fresh.funding_psbt_hex = Some(psbt_hex);
    fresh.btc_secret_nonce = Some(secret_nonce);
    assert(fresh@ =~= (StateView { funding_psbt_hex: Some(psbt_hex@), btc_secret_nonce: Some(stored@), ..begun }));
    assert(requests(fresh@, coordinator@, draft@.index, psbt_hex@, made, swap_id@, stored@, nonce@));
    *state = Some(fresh);
    Ok((RequestPhase::Stored, Action::StoreState))
}

/// One step of the flow in which the BTC payer requests a swap.
#[verifier::rlimit(40)]
pub fn btc_request(
    args: &RequestArgs,
    coordinator: &String,
    phase: RequestPhase,
    reply: Reply,
    state: &mut Option<StoredBtcArkSwap>,
) -> (next: Result<(RequestPhase, Action), SwapError>)
    ensures
        request_next(args@, coordinator@, phase, reply, option_view(*old(state)), option_view(*final(state)), next),
{
    match (phase, reply) {
        (RequestPhase::Begin, Reply::Done) => Ok((RequestPhase::Looked, Action::FindRelay)),
        (RequestPhase::Looked, Reply::MaybeRelay(Some(relay))) => match relay.swap_id() {
            Ok(swap_id) => Ok(
                (RequestPhase::Repeated { relay }, Action::LoadState { swap_id, role: SwapRole::BtcPayer }),
            ),
            Err(error) => Err(error),
        },
        (RequestPhase::Repeated { relay }, Reply::State(stored)) => match check_repeated_request(args, &relay, &stored) {
            Ok(()) => {
                *state = Some(stored);
                Ok((RequestPhase::Published, Action::End))
            },
            Err(error) => Err(error),
        },
        (RequestPhase::Looked, Reply::MaybeRelay(None)) => {
            match check_args(args) {
                Ok(()) => {},
                Err(error) => return Err(error),
            }
            match parse_ark_address(args.ark_receive.as_str()) {
                Ok((ark_receive, _)) => {
                    let address = ark_receive.clone();
                    Ok((RequestPhase::Validated { ark_receive }, Action::ValidateArkAddress(address)))
                },
                Err(error) => Err(error),
            }
        },
        (RequestPhase::Validated { ark_receive }, Reply::Done) => match fee_rate_from_sat_vb(args.fee_rate) {
            Ok(_) => Ok((RequestPhase::Tip { ark_receive }, Action::Tip)),
            Err(error) => Err(error),
        },
        (RequestPhase::Tip { ark_receive }, Reply::Tip(created_height)) => {
            match created_height.checked_add(args.refund_delay) {
                Some(refund_height) => if refund_height >= LOCK_TIME_THRESHOLD {
                    Err(SwapError::InvalidRefundHeight)
                } else {
                    Ok((RequestPhase::Key { ark_receive, created_height, refund_height }, Action::NewKey))
                },
                None => Err(SwapError::HeightOverflow),
            }
        },
        (RequestPhase::Key { ark_receive, created_height, refund_height }, Reply::NewKey(secret, index)) => Ok(
            (
                RequestPhase::Sync { draft: RequestDraft { ark_receive, created_height, refund_height, secret, index } },
                Action::SyncOnchain,
            ),
        ),
        (RequestPhase::Sync { draft }, Reply::Done) => {
            let script = match key_path_script(&draft.secret.public_key().x_only_public_key()) {
                Some(script) => script,
                None => return Err(SwapError::InvalidTweak),
            };
            match fee_rate_from_sat_vb(args.fee_rate) {
                Ok(rate) => {
                    let paid = script.clone();
                    assert(paid@ == script@);
                    Ok(
                        (
                            RequestPhase::Prepare { draft, script },
                            Action::PrepareFunding { script: paid, amount: args.amount, rate },
                        ),
                    )
                },
                Err(error) => Err(error),
            }
        },
        (RequestPhase::Prepare { draft, script }, Reply::Funding { tx, prevouts, psbt_hex }) => {
            let asked = tx.clone();
            let height: u32 = draft.created_height;
            Ok(
                (
                    RequestPhase::Reserved { draft, script, tx, prevouts, psbt_hex },
                    Action::CheckReservations { tx: asked, height },
                ),
            )
        },
        (RequestPhase::Reserved { draft, script, tx, prevouts, psbt_hex }, Reply::Done) => check_template(
            args,
            draft,
            script,
            tx,
            prevouts,
            psbt_hex,
        ),
        (RequestPhase::Live { draft, tx, prevouts, slot, psbt_hex }, Reply::Log(log)) => make_request(
            args,
            coordinator,
            draft,
            &tx,
            &prevouts,
            slot,
            psbt_hex,
            &log,
            state,
        ),
        (RequestPhase::Stored, Reply::Done) => Ok((RequestPhase::Published, Action::StoreRelay)),
        (RequestPhase::Published, Reply::Done) => Ok((RequestPhase::Published, Action::End)),
        _ => Err(SwapError::UnexpectedReply),
    }
}

/// A request whose relay file is there is not made again: the flow goes on to the stored state, ends
/// with it as it is where the arguments and the request are the same, and fails where any differs.
/// In either way nothing is stored or published, and no nonce is drawn, for the step that draws one is
/// reached only where no relay file was there.
pub proof fn law_repeated_request_changes_nothing(
    args: ArgsView,
    coordinator: Seq<char>,
    relay: RelayFile,
    stored: StoredBtcArkSwap,
    before: Option<StateView>,
    looked: Option<StateView>,
    after: Option<StateView>,
    found: Result<(RequestPhase, Action), SwapError>,
    next: Result<(RequestPhase, Action), SwapError>,
)
    requires
        request_next(args, coordinator, RequestPhase::Looked, Reply::MaybeRelay(Some(relay)), before, looked, found),
        request_next(args, coordinator, RequestPhase::Repeated { relay }, Reply::State(stored), looked, after, next),
    ensures
        looked == before,
        found matches Ok((phase, action)) ==> (phase matches RequestPhase::Repeated { relay: kept } && kept@ == relay@)
            && (action matches Action::LoadState { swap_id, role } && swap_id_value(relay@.swap_id) == Some(swap_id@) && role
            == SwapRole::BtcPayer),
        found is Err ==> swap_id_value(relay@.swap_id) is None,
        next is Ok <==> repeat_refusal(args, relay@, stored@) is None,
        next matches Ok((phase, action)) ==> after == Some(stored@) && phase is Published && action is End,
        next is Err ==> after == before,
{
}

/// Only a request that finds no relay file goes on to be made: the arguments are checked, and the
/// address with them, after none was found, and each later step follows from the one before.
pub proof fn law_request_is_made_only_without_a_relay(
    args: ArgsView,
    coordinator: Seq<char>,
    phase: RequestPhase,
    reply: Reply,
    before: Option<StateView>,
    after: Option<StateView>,
    next: Result<(RequestPhase, Action), SwapError>,
)
    requires
        request_next(args, coordinator, phase, reply, before, after, next),
    ensures
        next matches Ok((to, _)) ==> match to {
            RequestPhase::Begin => false,
            RequestPhase::Looked => phase is Begin,
            RequestPhase::Repeated { .. } => phase is Looked && reply is MaybeRelay,
            RequestPhase::Validated { .. } => phase is Looked && reply == Reply::MaybeRelay(None),
            RequestPhase::Tip { .. } => phase is Validated,
            RequestPhase::Key { .. } => phase is Tip,
            RequestPhase::Sync { .. } => phase is Key,
            RequestPhase::Prepare { .. } => phase is Sync,
            RequestPhase::Reserved { .. } => phase is Prepare,
            RequestPhase::Live { .. } => phase is Reserved,
            RequestPhase::Stored => phase is Live,
            RequestPhase::Published => phase is Stored || phase is Published || phase is Repeated,
        },
        next matches Ok((_, action)) ==> (action is StoreState ==> phase is Live) && (action is StoreRelay ==> phase
            is Stored),
{
}

/// A request is stored with its nonce before it is published, and its refund height is fixed: the
/// height at which it was made and the delay.
pub proof fn law_request_is_stored_before_publication(
    args: ArgsView,
    coordinator: Seq<char>,
    phase: RequestPhase,
    reply: Reply,
    before: Option<StateView>,
    after: Option<StateView>,
    next: Result<(RequestPhase, Action), SwapError>,
)
    requires
        request_next(args, coordinator, phase, reply, before, after, next),
    ensures
        after != before && !(phase is Repeated) ==> next matches Ok((RequestPhase::Stored, Action::StoreState)),
        next matches Ok((RequestPhase::Stored, _)) ==> (after matches Some(state) && state.btc_secret_nonce is Some
            && state.funding_psbt_hex is Some && state.role == SwapRole::BtcPayer && state.relay.btc_claim_adaptor is None),
        next matches Ok((_, Action::StoreRelay)) ==> phase is Stored,
        next matches Ok((RequestPhase::Key { created_height, refund_height, .. }, _)) ==> reply == Reply::Tip(
            created_height,
        ) && refund_height == created_height + args.refund_delay,
{
}

/// What the BTC payer requests passes the checks of the Ark payer on its numbers and heights at the
/// same tip.
pub proof fn law_request_passes_at_its_tip(
    args: ArgsView,
    draft: DraftView,
    tx: TransactionView,
    prevouts: Seq<TxOutView>,
    slot: u32,
)
    requires
        args_refusal(args) is None,
        draft.refund_height == draft.created_height + args.refund_delay,
        draft.refund_height < LOCK_TIME_THRESHOLD,
    ensures
        request_refusal(request_of(args, draft, tx, prevouts, slot)) is None,
        height_refusal(request_of(args, draft, tx, prevouts, slot), draft.created_height) is None,
{
}

/// The arguments of a request are taken exactly where the amount, the confirmations and the margin are
/// positive, the margin is not below the confirmations, and the refund comes later than both together.
pub proof fn law_arguments_leave_room(args: ArgsView)
    ensures
        args_refusal(args) is None <==> 0 < args.amount && 0 < args.confirmations && args.confirmations
            <= args.safety_margin && args.confirmations + args.safety_margin < args.refund_delay,
{
}

/// The placeholder that is found is one, and the first.
proof fn lemma_placeholder(outputs: Seq<TxOutView>, placeholder: TxOutView, at: nat)
    ensures
        match placeholder_from(outputs, placeholder, at) {
            None => forall|i: int| at <= i < outputs.len() ==> outputs[i] != placeholder,
            Some(found) => at <= found < outputs.len() && outputs[found as int] == placeholder && forall|i: int|
                at <= i < found ==> outputs[i] != placeholder,
        },
    decreases outputs.len() - at,
{
    if at < outputs.len() && outputs[at as int] != placeholder {
        lemma_placeholder(outputs, placeholder, at + 1);
    }
}

/// A request is made step by step: from the tip, the refund height lies the delay above it; the funding
/// is prepared to pay the amount to a script of the new key at the rate that was asked for; it is held
/// against the reservations of other swaps at that tip; and the output that pays the amount to the
/// script is found in it.
pub proof fn law_request_is_prepared_from_the_arguments(
    args: ArgsView,
    coordinator: Seq<char>,
    phase: RequestPhase,
    reply: Reply,
    before: Option<StateView>,
    after: Option<StateView>,
    next: Result<(RequestPhase, Action), SwapError>,
)
    requires
        request_next(args, coordinator, phase, reply, before, after, next),
    ensures
        phase is Looked && reply == Reply::MaybeRelay(None) ==> {
            let sound = 0 < args.amount && 0 < args.confirmations && args.confirmations <= args.safety_margin
                && args.confirmations + args.safety_margin < args.refund_delay;
            if sound && ark_address_of_text(args.ark_receive) is Some {
                next matches Ok((RequestPhase::Validated { ark_receive }, Action::ValidateArkAddress(address)))
                    && ark_receive@ == (ark_address_of_text(args.ark_receive)->0).0 && address@ == ark_receive@
            } else {
                next is Err
            }
        },
        phase matches RequestPhase::Validated { ark_receive } ==> (reply is Done ==> if 0 < args.fee_rate <= 0xffff_ffff {
            next matches Ok((RequestPhase::Tip { ark_receive: kept }, Action::Tip)) && kept@ == ark_receive@
        } else {
            next is Err
        }),
        phase matches RequestPhase::Tip { ark_receive } ==> (reply matches Reply::Tip(tip) ==> if tip + args.refund_delay
            < 500_000_000 {
            next matches Ok((RequestPhase::Key { ark_receive: kept, created_height, refund_height }, Action::NewKey))
                && kept@ == ark_receive@ && created_height == tip && refund_height == tip + args.refund_delay
        } else {
            next is Err
        }),
        phase matches RequestPhase::Key { ark_receive, created_height, refund_height } ==> (reply matches Reply::NewKey(
            secret,
            index,
        ) ==> (next matches Ok((RequestPhase::Sync { draft }, Action::SyncOnchain)) && draft.ark_receive@ == ark_receive@
            && draft.created_height == created_height && draft.refund_height == refund_height && draft.secret@ == secret@
            && draft.index == index)),
        phase matches RequestPhase::Sync { draft } ==> (reply is Done ==> (next matches Ok((to, action)) ==> (
        to matches RequestPhase::Prepare { draft: kept, script } && kept@ == draft@ && (
        action matches Action::PrepareFunding { script: paid, amount, rate } && paid@ == script@ && amount == args.amount
            && rate == 250 * args.fee_rate && script@.len() >= 2 && script@[0] == 0x51 && script@[1] == 0x20
            && key_path_key(point_of(draft.secret@).subrange(1, 33)) == Some(script@.skip(2)))))),
        phase matches RequestPhase::Prepare { draft, script } ==> (reply matches Reply::Funding { tx, prevouts, psbt_hex }
            ==> (next matches Ok(
            (
                RequestPhase::Reserved {
                    draft: kept,
                    script: kept_script,
                    tx: kept_tx,
                    prevouts: kept_prevouts,
                    psbt_hex: kept_psbt,
                },
                Action::CheckReservations { tx: asked, height },
            ),
        ) && kept@ == draft@ && kept_script@ == script@ && kept_tx@ == tx@ && kept_prevouts@ == prevouts@ && kept_psbt@
            == psbt_hex@ && asked@ == tx@ && height == draft.created_height)),
        phase matches RequestPhase::Reserved { draft, script, tx, prevouts, psbt_hex } ==> (reply is Done ==> {
            let placeholder = TxOutView { value: args.amount, script_pubkey: script@ };
            &&& next matches Ok((to, action)) ==> (to matches RequestPhase::Live {
                draft: kept,
                tx: kept_tx,
                prevouts: kept_prevouts,
                slot,
                psbt_hex: kept_psbt,
            } && kept@ == draft@ && kept_tx@ == tx@ && kept_psbt@ == psbt_hex@ && {
                &&& slot < tx@.output.len() && tx@.output[slot as int] == placeholder
                &&& forall|i: int| 0 <= i < slot ==> tx@.output[i] != placeholder
                &&& kept_prevouts@.len() == prevouts@.len()
                &&& forall|i: int|
                    0 <= i < prevouts@.len() ==> (#[trigger] prevouts@[i]) is Some && kept_prevouts@[i]@
                        == prevouts@[i]->0@
                &&& action matches Action::CheckFundingInputs { tx: asked, prevouts: known } && asked@ == tx@
                    && output_views(known@) == output_views(kept_prevouts@)
            })
            &&& next is Err ==> (forall|i: int| 0 <= i < tx@.output.len() ==> tx@.output[i] != placeholder) || (exists|
                i: int,
            |
                0 <= i < prevouts@.len() && (#[trigger] prevouts@[i]) is None) || tx@.output.len() > u32::MAX
        }),
        phase is Stored && reply is Done ==> (next matches Ok((RequestPhase::Published, Action::StoreRelay))),
{
    if phase is Sync && reply is Done && next is Ok {
        let key = key_path_key(point_of(phase->Sync_draft@.secret).subrange(1, 33))->0;
        assert(taproot_script(key).skip(2) =~= key);
    }
    if phase is Reserved && reply is Done {
        let placeholder = TxOutView { value: args.amount, script_pubkey: phase->Reserved_script@ };
        lemma_placeholder(phase->Reserved_tx@.output, placeholder, 0);
        if next is Ok {
            let kept = (next->Ok_0).0->Live_prevouts@;
            let prevouts = phase->Reserved_prevouts@;
            assert(output_views(kept).len() == kept.len());
            assert forall|i: int| 0 <= i < prevouts.len() implies (#[trigger] prevouts[i]) is Some && kept[i]@
                == prevouts[i]->0@ by {
                assert(output_views(kept)[i] == kept[i]@);
            }
        }
    }
}

/// What a new request says: the amount, rate, confirmations and margin that were asked for, the address
/// and the heights of the draft, the funding with its prevouts and the output to be replaced, the public
/// keys of the drafted secret, and a public nonce whose secret part alone is kept in the state.
pub proof fn law_request_says_what_was_asked(
    args: ArgsView,
    coordinator: Seq<char>,
    draft: RequestDraft,
    tx: Transaction,
    prevouts: Vec<TxOut>,
    slot: u32,
    psbt_hex: String,
    log: Vec<ChainAnswer>,
    before: Option<StateView>,
    after: Option<StateView>,
    next: Result<(RequestPhase, Action), SwapError>,
)
    requires
        request_next(
            args,
            coordinator,
            RequestPhase::Live { draft, tx, prevouts, slot, psbt_hex },
            Reply::Log(log),
            before,
            after,
            next,
        ),
    ensures
        next is Ok <==> funding_inputs(answer_views(log@), 0, tx@.input, output_views(prevouts@)) is Pass,
        next is Err ==> after == before,
        next is Ok ==> (next matches Ok((RequestPhase::Stored, Action::StoreState))) && (after matches Some(state) && {
            let request = state.relay.request;
            &&& state.role == SwapRole::BtcPayer && state.status == SwapStatus::Requested && state.relay.status
                == SwapStatus::Requested
            &&& state.coordinator == coordinator && state.claim_key_index == draft.index && state.swap_id
                == state.relay.swap_id
            &&& request.amount_sat == args.amount && request.fee_rate_sat_vb == args.fee_rate
            &&& request.minimum_funding_confirmations == args.confirmations && request.safety_margin_blocks
                == args.safety_margin
            &&& request.ark_receive == draft.ark_receive@
            &&& request.created_height == draft.created_height && request.refund_height == draft.refund_height
            &&& request.btc_payer_claim_pubkey == hex_text(point_of(draft.secret@))
            &&& request.btc_refund_pubkey == hex_text(point_of(draft.secret@).subrange(1, 33))
            &&& request.funding_template_hex == hex_of_tx(tx@) && request.funding_output_index == slot
            &&& request.funding_prevouts_hex.len() == prevouts@.len()
            &&& forall|i: int|
                0 <= i < prevouts@.len() ==> #[trigger] request.funding_prevouts_hex[i] == hex_of_txout(prevouts@[i]@)
            &&& state.funding_psbt_hex == Some(psbt_hex@)
            &&& state.relay.terms is None && state.relay.ark_transfer is None && state.relay.btc_funding is None
            &&& state.relay.claim_request is None && state.relay.ark_claim_partial is None
                && state.relay.btc_claim_adaptor is None
            &&& state.btc_secret_nonce matches Some(stored) && hex_value(request.btc_payer_public_nonce_hex) matches Some(
                public,
            ) && stored_for(stored, public) && is_public_nonce(public)
        }),
{
    if next is Ok {
        let state = after->0;
        let request = request_of(args, draft@, tx@, output_views(prevouts@), slot);
        let (id, stored, public) = choose|id: Seq<u8>, stored: Seq<u8>, public: Seq<u8>| #[trigger]
            requests(state, coordinator, draft@.index, psbt_hex@, request, id, stored, public);
        law_hex_round_trip(public);
        assert forall|i: int| 0 <= i < prevouts@.len() implies #[trigger] request.funding_prevouts_hex[i] == hex_of_txout(
            prevouts@[i]@,
        ) by {
            assert(output_views(prevouts@)[i] == prevouts@[i]@);
        }
    }
}

/// A repeated request is answered with the stored state exactly where it asks for the same: amount,
/// address, rate, confirmations, margin and delay, and the published request is the stored one.
pub proof fn law_repeated_request_asks_for_the_same(args: ArgsView, relay: RelayView, state: StateView)
    ensures
        repeat_refusal(args, relay, state) is None <==> ({
            let request = state.relay.request;
            &&& ark_address_of_text(args.ark_receive) matches Some((normal, _)) && request.ark_receive == normal
            &&& request.amount_sat == args.amount && request.fee_rate_sat_vb == args.fee_rate
            &&& request.minimum_funding_confirmations == args.confirmations
            &&& request.safety_margin_blocks == args.safety_margin
            &&& request.refund_height == request.created_height + args.refund_delay
            &&& relay.request == request
        }),
{
}

/// A funding is prepared wherever the new key takes its tweak and the rate is one.
pub proof fn law_funding_is_prepared(
    args: ArgsView,
    coordinator: Seq<char>,
    draft: RequestDraft,
    before: Option<StateView>,
    after: Option<StateView>,
    next: Result<(RequestPhase, Action), SwapError>,
)
    requires
        request_next(args, coordinator, RequestPhase::Sync { draft }, Reply::Done, before, after, next),
    ensures
        next is Ok <==> key_path_key(point_of(draft.secret@).subrange(1, 33)) is Some && 0 < args.fee_rate <= 0xffff_ffff,
        after == before,
{
}

/// The flow of the request takes no reply but one to what it asked for, and a step that fails changes nothing.
pub proof fn law_request_takes_its_replies_alone(
    args: ArgsView,
    coordinator: Seq<char>,
    phase: RequestPhase,
    reply: Reply,
    before: Option<StateView>,
    after: Option<StateView>,
    next: Result<(RequestPhase, Action), SwapError>,
)
    requires
        request_next(args, coordinator, phase, reply, before, after, next),
    ensures
        next is Ok ==> match phase {
            RequestPhase::Begin | RequestPhase::Validated { .. } | RequestPhase::Sync { .. }
            | RequestPhase::Reserved { .. } | RequestPhase::Stored | RequestPhase::Published => reply is Done,
            RequestPhase::Looked => reply is MaybeRelay,
            RequestPhase::Repeated { .. } => reply is State,
            RequestPhase::Tip { .. } => reply is Tip,
            RequestPhase::Key { .. } => reply is NewKey,
            RequestPhase::Prepare { .. } => reply is Funding,
            RequestPhase::Live { .. } => reply is Log,
        },
        next is Err ==> after == before,
{
}

} // verus!
