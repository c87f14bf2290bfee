//! The Ark transfer of a swap: the Ark payer has the server cosign it, adapted to the secret's
//! point, and completes it when the secret is public.

use vstd::prelude::*;

use crate::adaptor::AdaptorSecret;
use crate::ark_types::{
    ark_address_of_text, parse_ark_address, policy_user_key, pubkey_policy_of, VtxoId, VtxoPolicy,
};
use crate::error::SwapError;
use crate::flow::{Action, Reply};
use crate::keys::{point_of, PublicKey, SecretKey};
use crate::offer::{ark_output_views, ArkOffer, ArkOutput, ArkOutputView, OfferView};
use crate::swap_id::SwapId;

verus! {

/// What an Ark transfer of a swap is to be.
pub struct TransferPlan {
    pub destination: String,
    pub amount: u64,
    pub payout: Vec<u8>,
    pub point: PublicKey,
    pub inputs: Vec<VtxoId>,
}

/// What an Ark transfer of a swap is to be.
#[verifier::ext_equal]
pub struct PlanView {
    pub destination: Seq<char>,
    pub amount: u64,
    pub payout: Seq<u8>,
    pub point: Seq<u8>,
    pub inputs: Seq<VtxoId>,
}

impl View for TransferPlan {
    type V = PlanView;

    open spec fn view(&self) -> PlanView {
        PlanView {
            destination: self.destination@,
            amount: self.amount,
            payout: self.payout@,
            point: self.point@,
            inputs: self.inputs@,
        }
    }
}

/// Where the flow is that has a transfer cosigned.
pub enum PreparePhase {
    Begin,
    Validated,
    Server,
    Registered { server: PublicKey },
    Change { server: PublicKey },
    Cosigned { server: PublicKey, index: u32, key: PublicKey },
    Ready { offer: ArkOffer, transfer_hex: String },
}

/// Whether an output is paid to a policy.
pub open spec fn pays_policy(outputs: Seq<ArkOutputView>, policy: Seq<u8>) -> bool {
    exists|i: int| 0 <= i < outputs.len() && (#[trigger] outputs[i]).policy == policy
}

/// Whether an output is paid to a policy.
fn is_paid(outputs: &Vec<ArkOutput>, policy: &VtxoPolicy) -> (found: bool)
    ensures
        found == pays_policy(ark_output_views(outputs@), policy@),
{
    let ghost views = ark_output_views(outputs@);
    let mut i: usize = 0;
    while i < outputs.len()
        invariant
            i <= outputs.len(),
            views == ark_output_views(outputs@),
            forall|k: int| 0 <= k < i ==> (#[trigger] views[k]).policy != policy@,
        decreases outputs.len() - i,
    {
        assert(views[i as int] == outputs[i as int]@);
        if outputs[i].policy.same(policy) {
            return true;
        }
        i += 1;
    }
    false
}

/// Whether an offer is the one of a plan, with some identifier.
pub open spec fn offers_plan(offer: OfferView, plan: PlanView, policy: Seq<u8>, server: Seq<u8>) -> bool {
    offer == (OfferView {
        id: offer.id,
        amount: plan.amount,
        btc_payout_script: plan.payout,
        ark_input_ids: plan.inputs,
        ark_receive_policy: policy,
        ark_server_pubkey: server,
        adaptor_point: plan.point,
    })
}

/// What follows when the transfer is cosigned: the change key is stored where there is change, and
/// the offer is made.
pub open spec fn prepare_offers(
    plan: PlanView,
    server: Seq<u8>,
    index: u32,
    key: Seq<u8>,
    outputs: Seq<ArkOutputView>,
    transfer_hex: Seq<char>,
    next: Result<(PreparePhase, Action), SwapError>,
) -> bool {
    match ark_address_of_text(plan.destination) {
        None => next == Err::<(PreparePhase, Action), SwapError>(SwapError::InvalidArkAddress),
        Some((_, policy)) => {
            &&& next matches Ok((PreparePhase::Ready { offer, transfer_hex: kept }, action)) && kept@ == transfer_hex
                && offers_plan(offer@, plan, policy, server) && (if pays_policy(outputs, pubkey_policy_of(key)) {
                action matches Action::StoreKey { index: stored, key: stored_key } && stored == index && stored_key@ == key
            } else {
                action is End
            })
        },
    }
}

/// What the flow does next that has a transfer cosigned.
pub open spec fn prepare_next(
    plan: PlanView,
    phase: PreparePhase,
    reply: Reply,
    next: Result<(PreparePhase, Action), SwapError>,
) -> bool {
    match (phase, reply) {
        (PreparePhase::Begin, Reply::Done) => next matches Ok(
            (PreparePhase::Validated, Action::ValidateArkAddress(address)),
        ) && address@ == plan.destination,
        (PreparePhase::Validated, Reply::Done) => next matches Ok((PreparePhase::Server, Action::ServerKey)),
        (PreparePhase::Server, Reply::Server(key)) => next matches Ok(
            (PreparePhase::Registered { server }, Action::RegisterInputs(inputs)),
        ) && server@ == key@ && inputs@ == plan.inputs,
        (PreparePhase::Registered { server }, Reply::Done) => next matches Ok(
            (PreparePhase::Change { server: kept }, Action::PeekKey),
        ) && kept@ == server@,
        (PreparePhase::Change { server }, Reply::NewKey(secret, index)) => match ark_address_of_text(plan.destination) {
            None => next == Err::<(PreparePhase, Action), SwapError>(SwapError::InvalidArkAddress),
            Some((_, receive)) => match policy_user_key(receive) {
                None => next == Err::<(PreparePhase, Action), SwapError>(SwapError::InvalidPolicy),
                Some(user) => if user == point_of(secret@) {
                    next == Err::<(PreparePhase, Action), SwapError>(SwapError::TransferToChange)
                } else {
                    next matches Ok(
                        (
                            PreparePhase::Cosigned { server: kept, index: kept_index, key },
                            Action::Cosign { inputs, policy, amount, change, point },
                        ),
                    ) && kept@ == server@ && kept_index == index && key@ == point_of(secret@) && inputs@ == plan.inputs
                        && policy@ == receive && amount == plan.amount && change@ == pubkey_policy_of(key@) && point@
                        == plan.point
                },
            },
        },
        (PreparePhase::Cosigned { server, index, key }, Reply::Cosigned { outputs, transfer_hex }) => prepare_offers(
            plan,
            server@,
            index,
            key@,
            ark_output_views(outputs@),
            transfer_hex@,
            next,
        ),
        (PreparePhase::Ready { offer, transfer_hex }, Reply::Done) => next matches Ok(
            (PreparePhase::Ready { offer: kept, transfer_hex: kept_hex }, Action::End),
        ) && kept@ == offer@ && kept_hex@ == transfer_hex@,
        _ => next == Err::<(PreparePhase, Action), SwapError>(SwapError::UnexpectedReply),
    }
}

/// Goes on when the change key is known.
fn ask_cosign(plan: &TransferPlan, server: PublicKey, secret: &SecretKey, index: u32) -> (next: Result<
    (PreparePhase, Action),
    SwapError,
>)
    ensures
        prepare_next(plan@, PreparePhase::Change { server }, Reply::NewKey(*secret, index), next),
{
    let (_, policy) = match parse_ark_address(plan.destination.as_str()) {
        Ok(address) => address,
        Err(error) => return Err(error),
    };
    let key = secret.public_key();
    match policy.user_pubkey() {
        Some(user) => if user.same(&key) {
            return Err(SwapError::TransferToChange);
        },
        None => return Err(SwapError::InvalidPolicy),
    }
    let change = VtxoPolicy::new_pubkey(&key);
    let inputs = plan.inputs.clone();
    assert(inputs@ == plan.inputs@);
    Ok(
        (
            PreparePhase::Cosigned { server, index, key },
            Action::Cosign { inputs, policy, amount: plan.amount, change, point: plan.point },
        ),
    )
}

/// Goes on when the transfer is cosigned.
fn make_offer(
    plan: &TransferPlan,
    server: PublicKey,
    index: u32,
    key: PublicKey,
    outputs: &Vec<ArkOutput>,
    transfer_hex: String,
) -> (next: Result<(PreparePhase, Action), SwapError>)
    ensures
        prepare_offers(plan@, server@, index, key@, ark_output_views(outputs@), transfer_hex@, next),
{
    let (_, policy) = match parse_ark_address(plan.destination.as_str()) {
        Ok(address) => address,
        Err(error) => return Err(error),
    };
    let action = if is_paid(outputs, &VtxoPolicy::new_pubkey(&key)) {
        Action::StoreKey { index, key }
    } else {
        Action::End
    };
    let inputs = plan.inputs.clone();
    assert(inputs@ == plan.inputs@);
    let offer = ArkOffer {
        id: SwapId::random(),
        amount: plan.amount,
        btc_payout_script: plan.payout.clone(),
        ark_input_ids: inputs,
        ark_receive_policy: policy,
        ark_server_pubkey: server,
        adaptor_point: plan.point,
    };
    assert(offers_plan(offer@, plan@, policy@, server@));
    Ok((PreparePhase::Ready { offer, transfer_hex }, action))
}

/// One step of the flow that has the Ark server cosign a transfer.
///
/// The inputs must be frozen durably and locked before: the server marks them as spent by this
/// transfer, which cannot be rolled back.
pub fn prepare_btc_ark_transfer(plan: &TransferPlan, phase: PreparePhase, reply: Reply) -> (next: Result<
    (PreparePhase, Action),
    SwapError,
>)
    ensures
        prepare_next(plan@, phase, reply, next),
{
    match (phase, reply) {
        (PreparePhase::Begin, Reply::Done) => Ok(
            (PreparePhase::Validated, Action::ValidateArkAddress(plan.destination.clone())),
        ),
        (PreparePhase::Validated, Reply::Done) => Ok((PreparePhase::Server, Action::ServerKey)),
        (PreparePhase::Server, Reply::Server(server)) => {
            let inputs = plan.inputs.clone();
            assert(inputs@ == plan.inputs@);
            Ok((PreparePhase::Registered { server }, Action::RegisterInputs(inputs)))
        },
        (PreparePhase::Registered { server }, Reply::Done) => Ok((PreparePhase::Change { server }, Action::PeekKey)),
        (PreparePhase::Change { server }, Reply::NewKey(secret, index)) => ask_cosign(plan, server, &secret, index),
        (PreparePhase::Cosigned { server, index, key }, Reply::Cosigned { outputs, transfer_hex }) => make_offer(
            plan,
            server,
            index,
            key,
            &outputs,
            transfer_hex,
        ),
        (PreparePhase::Ready { offer, transfer_hex }, Reply::Done) => Ok(
            (PreparePhase::Ready { offer, transfer_hex }, Action::End),
        ),
        _ => Err(SwapError::UnexpectedReply),
    }
}

/// Where the flow is that completes a transfer.
pub enum FinishPhase {
    Begin,
    Finalized,
    Registering { outputs: Vec<ArkOutput> },
    Owned { outputs: Vec<ArkOutput>, at: usize, owned: Vec<VtxoId> },
    Imported { outputs: Vec<ArkOutput>, at: usize, owned: Vec<VtxoId> },
    Ready { owned: Vec<VtxoId> },
}

/// What follows from one output on: the wallet is asked whether it is ours.
pub open spec fn finish_asks(
    outputs: Seq<ArkOutputView>,
    at: int,
    owned: Seq<VtxoId>,
    next: Result<(FinishPhase, Action), SwapError>,
) -> bool {
    if at < outputs.len() {
        next matches Ok(
            (FinishPhase::Owned { outputs: kept, at: then_at, owned: kept_owned }, Action::IsOurs(id)),
        ) && ark_output_views(kept@) == outputs && then_at == at && kept_owned@ == owned && id == outputs[at].id
    } else {
        next matches Ok((FinishPhase::Ready { owned: kept }, Action::End)) && kept@ == owned
    }
}

/// What the flow does next that completes a transfer.
pub open spec fn finish_next(
    transfer: Seq<char>,
    secret: Seq<u8>,
    phase: FinishPhase,
    reply: Reply,
    next: Result<(FinishPhase, Action), SwapError>,
) -> bool {
    match (phase, reply) {
        (FinishPhase::Begin, Reply::Done) => next matches Ok(
            (FinishPhase::Finalized, Action::FinalizeTransfer { transfer_hex, secret: given }),
        ) && transfer_hex@ == transfer && given@ == secret,
        (FinishPhase::Finalized, Reply::Outputs(outputs)) => next matches Ok(
            (FinishPhase::Registering { outputs: kept }, Action::RegisterTransfer),
        ) && kept@ == outputs@,
        (FinishPhase::Registering { outputs }, Reply::Registered(registered)) => if registered {
            finish_asks(ark_output_views(outputs@), 0, Seq::empty(), next)
        } else {
            next == Err::<(FinishPhase, Action), SwapError>(SwapError::RegistrationFailed)
        },
        (FinishPhase::Owned { outputs, at, owned }, Reply::Answer(ours)) => if at >= outputs@.len() {
            next == Err::<(FinishPhase, Action), SwapError>(SwapError::UnexpectedReply)
        } else if ours {
            next matches Ok(
                (FinishPhase::Imported { outputs: kept, at: then_at, owned: kept_owned }, Action::ImportVtxo(id)),
            ) && kept@ == outputs@ && then_at == at && kept_owned@ == owned@.push(id) && id == outputs@[at as int].id
        } else {
            finish_asks(ark_output_views(outputs@), at + 1, owned@, next)
        },
        (FinishPhase::Imported { outputs, at, owned }, Reply::Done) => if at >= outputs@.len() {
            next == Err::<(FinishPhase, Action), SwapError>(SwapError::UnexpectedReply)
        } else {
            finish_asks(ark_output_views(outputs@), at + 1, owned@, next)
        },
        _ => next == Err::<(FinishPhase, Action), SwapError>(SwapError::UnexpectedReply),
    }
}

/// Goes on from one output on.
fn ask_ours(outputs: Vec<ArkOutput>, at: usize, owned: Vec<VtxoId>) -> (next: Result<(FinishPhase, Action), SwapError>)
    ensures
        finish_asks(ark_output_views(outputs@), at as int, owned@, next),
{
    assert(ark_output_views(outputs@).len() == outputs@.len());
    if at < outputs.len() {
        assert(ark_output_views(outputs@)[at as int] == outputs[at as int]@);
        let id = outputs[at].id;
        Ok((FinishPhase::Owned { outputs, at, owned }, Action::IsOurs(id)))
    } else {
        Ok((FinishPhase::Ready { owned }, Action::End))
    }
}

/// One step of the flow that completes a transfer with the secret, registers it, and imports those
/// of its outputs that are ours.
pub fn complete_btc_ark_transfer(transfer_hex: &str, secret: AdaptorSecret, phase: FinishPhase, reply: Reply) -> (next: Result<
    (FinishPhase, Action),
    SwapError,
>)
    ensures
        finish_next(transfer_hex@, secret@, phase, reply, next),
{
    match (phase, reply) {
        (FinishPhase::Begin, Reply::Done) => Ok(
            (FinishPhase::Finalized, Action::FinalizeTransfer { transfer_hex: transfer_hex.to_owned(), secret }),
        ),
        (FinishPhase::Finalized, Reply::Outputs(outputs)) => Ok(
            (FinishPhase::Registering { outputs }, Action::RegisterTransfer),
        ),
        (FinishPhase::Registering { outputs }, Reply::Registered(true)) => ask_ours(outputs, 0, Vec::new()),
        (FinishPhase::Registering { outputs: _ }, Reply::Registered(false)) => Err(SwapError::RegistrationFailed),
        (FinishPhase::Owned { outputs, at, owned }, Reply::Answer(ours)) => {
            if at >= outputs.len() {
                return Err(SwapError::UnexpectedReply);
            }
            if ours {
                let id = outputs[at].id;
                let mut owned = owned;
                owned.push(id);
                Ok((FinishPhase::Imported { outputs, at, owned }, Action::ImportVtxo(id)))
            } else {
                ask_ours(outputs, at + 1, owned)
            }
        },
        (FinishPhase::Imported { outputs, at, owned }, Reply::Done) => {
            if at >= outputs.len() {
                return Err(SwapError::UnexpectedReply);
            }
            ask_ours(outputs, at + 1, owned)
        },
        _ => Err(SwapError::UnexpectedReply),
    }
}

/// A transfer is prepared as it was planned: the address is validated, the inputs of the plan are
/// registered, all of them, and the server cosigns a transfer of them that pays the amount of the plan to
/// the policy of the address, adapted to the point, with the change to a new key of our own, unless the
/// address is that very key. What is offered repeats the plan.
pub proof fn law_transfer_is_prepared_as_planned(
    plan: PlanView,
    phase: PreparePhase,
    reply: Reply,
    next: Result<(PreparePhase, Action), SwapError>,
)
    requires
        prepare_next(plan, phase, reply, next),
    ensures
        phase is Begin && reply is Done ==> (next matches Ok((PreparePhase::Validated, Action::ValidateArkAddress(address)))
            && address@ == plan.destination),
        phase is Validated && reply is Done ==> (next matches Ok((PreparePhase::Server, Action::ServerKey))),
        phase is Server ==> (reply matches Reply::Server(key) ==> (next matches Ok(
            (PreparePhase::Registered { server }, Action::RegisterInputs(inputs)),
        ) && server@ == key@ && inputs@ == plan.inputs)),
        phase matches PreparePhase::Registered { server } ==> (reply is Done ==> (next matches Ok(
            (PreparePhase::Change { server: kept }, Action::PeekKey),
        ) && kept@ == server@)),
        phase matches PreparePhase::Change { server } ==> (reply matches Reply::NewKey(secret, index) ==> (
        ark_address_of_text(plan.destination) matches Some((_, receive)) ==> (policy_user_key(receive) matches Some(user)
            ==> if user == point_of(secret@) {
            next is Err
        } else {
            next matches Ok(
                (
                    PreparePhase::Cosigned { server: kept, index: kept_index, key },
                    Action::Cosign { inputs, policy, amount, change, point },
                ),
            ) && kept@ == server@ && kept_index == index && key@ == point_of(secret@) && inputs@ == plan.inputs && policy@
                == receive && amount == plan.amount && change@ == seq![0u8] + point_of(secret@) && point@ == plan.point
        }))),
        phase matches PreparePhase::Cosigned { server, index, key } ==> (reply matches Reply::Cosigned {
            outputs,
            transfer_hex,
        } ==> (ark_address_of_text(plan.destination) matches Some((_, receive)) ==> (next matches Ok((to, action)) && (
        to matches PreparePhase::Ready { offer, transfer_hex: kept } && kept@ == transfer_hex@ && offer@.amount
            == plan.amount && offer@.btc_payout_script == plan.payout && offer@.ark_input_ids == plan.inputs
            && offer@.ark_receive_policy == receive && offer@.ark_server_pubkey == server@ && offer@.adaptor_point
            == plan.point) && {
            let change = exists|i: int|
                0 <= i < outputs@.len() && (#[trigger] outputs@[i])@.policy == seq![0u8] + key@;
            if change {
                action matches Action::StoreKey { index: stored, key: stored_key } && stored == index && stored_key@ == key@
            } else {
                action is End
            }
        }))),
{
    if phase is Cosigned && reply is Cosigned {
        let outputs = reply->Cosigned_outputs@;
        let key = phase->Cosigned_key@;
        let views = ark_output_views(outputs);
        if pays_policy(views, pubkey_policy_of(key)) {
            let i = choose|i: int| 0 <= i < views.len() && (#[trigger] views[i]).policy == pubkey_policy_of(key);
            assert(outputs[i]@.policy == seq![0u8] + key);
        } else {
            assert forall|i: int| 0 <= i < outputs.len() implies (#[trigger] outputs[i])@.policy != seq![0u8] + key by {
                assert(views[i] == outputs[i]@);
            }
        }
    }
}

/// A transfer is completed with its secret and registered; then every output is asked for, in turn, and
/// imported exactly where it is ours.
pub proof fn law_every_output_is_asked_for(
    transfer: Seq<char>,
    secret: Seq<u8>,
    phase: FinishPhase,
    reply: Reply,
    next: Result<(FinishPhase, Action), SwapError>,
)
    requires
        finish_next(transfer, secret, phase, reply, next),
    ensures
        ({
            let goes_on = |outputs: Seq<ArkOutput>, at: int, owned: Seq<VtxoId>|
                if at < outputs.len() {
                    next matches Ok(
                        (FinishPhase::Owned { outputs: kept, at: then_at, owned: kept_owned }, Action::IsOurs(id)),
                    ) && kept@.map_values(|output: ArkOutput| output@) == outputs.map_values(|output: ArkOutput| output@)
                        && then_at == at && kept_owned@ == owned && id == outputs[at].id
                } else {
                    next matches Ok((FinishPhase::Ready { owned: kept }, Action::End)) && kept@ == owned
                };
            &&& phase is Begin && reply is Done ==> (next matches Ok(
                (FinishPhase::Finalized, Action::FinalizeTransfer { transfer_hex, secret: given }),
            ) && transfer_hex@ == transfer && given@ == secret)
            &&& phase is Finalized ==> (reply matches Reply::Outputs(outputs) ==> (next matches Ok(
                (FinishPhase::Registering { outputs: kept }, Action::RegisterTransfer),
            ) && kept@ == outputs@))
            &&& phase matches FinishPhase::Registering { outputs } ==> match reply {
                Reply::Registered(true) => goes_on(outputs@, 0, Seq::empty()),
                _ => next is Err,
            }
            &&& phase matches FinishPhase::Owned { outputs, at, owned } ==> (at < outputs@.len() ==> match reply {
                Reply::Answer(true) => next matches Ok(
                    (FinishPhase::Imported { outputs: kept, at: then_at, owned: kept_owned }, Action::ImportVtxo(id)),
                ) && kept@ == outputs@ && then_at == at && id == outputs@[at as int].id && kept_owned@ == owned@.push(id),
                Reply::Answer(false) => goes_on(outputs@, at + 1, owned@),
                _ => next is Err,
            })
            &&& phase matches FinishPhase::Imported { outputs, at, owned } ==> (at < outputs@.len() && reply is Done
                ==> goes_on(outputs@, at + 1, owned@))
        }),
{
}

/// The flow of the preparation of a transfer takes no reply but one to what it asked for.
pub proof fn law_preparation_takes_its_replies_alone(
    plan: PlanView,
    phase: PreparePhase,
    reply: Reply,
    next: Result<(PreparePhase, Action), SwapError>,
)
    requires
        prepare_next(plan, phase, reply, next),
    ensures
        next is Ok ==> match phase {
            PreparePhase::Begin | PreparePhase::Validated | PreparePhase::Registered { .. }
            | PreparePhase::Ready { .. } => reply is Done,
            PreparePhase::Server => reply is Server,
            PreparePhase::Change { .. } => reply is NewKey,
            PreparePhase::Cosigned { .. } => reply is Cosigned,
        },
{
}

/// The flow of the finish of a transfer takes no reply but one to what it asked for.
pub proof fn law_finish_takes_its_replies_alone(
    transfer: Seq<char>,
    secret: Seq<u8>,
    phase: FinishPhase,
    reply: Reply,
    next: Result<(FinishPhase, Action), SwapError>,
)
    requires
        finish_next(transfer, secret, phase, reply, next),
    ensures
        next is Ok ==> match phase {
            FinishPhase::Begin | FinishPhase::Imported { .. } => reply is Done,
            FinishPhase::Finalized => reply is Outputs,
            FinishPhase::Registering { .. } => reply is Registered,
            FinishPhase::Owned { .. } => reply is Answer,
            _ => false,
        },
{
}

} // verus!
