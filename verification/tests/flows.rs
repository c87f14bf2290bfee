//! Whole swaps between two wallets, over a chain that is kept in memory.

use std::collections::HashMap;

use ark::arkoor::package::ArkoorPackageBuilder;
use ark::arkoor::ArkoorDestination;
use ark::test_util::dummy::DummyTestVtxoSpec;
use ark::ProtocolEncoding as _;
use bitcoin::secp256k1::Keypair;
use bitcoin::Amount;
use btc_ark_swap::address::{taproot_address, Network};
use btc_ark_swap::ark_types::{parse_ark_address, ArkVtxo, VtxoId, VtxoPolicy};
use btc_ark_swap::chain::{BlockRef, ChainAnswer, ChainQuery, ChainReply, CheckStep, TxStatus};
use btc_ark_swap::claim_flow::{broadcast_claim, check_claim_window, claim_btc, BroadcastPhase, ClaimPhase};
use btc_ark_swap::error::SwapError;
use btc_ark_swap::flow::{Action, CpfpFees, ExitRequest, FlowContext, Next, Reply, SubFlow};
use btc_ark_swap::fund_flow::{btc_fund, FundPhase};
use btc_ark_swap::hex::{bytes_from_hex, bytes_hex};
use btc_ark_swap::keys::{secret_key_from_hex, PublicKey, SecretKey};
use btc_ark_swap::live::{verify_live_ark_inputs, verify_live_ark_transfer};
use btc_ark_swap::lock::key_path_script;
use btc_ark_swap::manual_flow::{manual_step, ManualPhase, ManualStep};
use btc_ark_swap::observe_flow::{
    complete_ark, observe_claim, receive_funding_message, recover_from_claim, CompletePhase, ObservePhase, ReceivePhase,
};
use btc_ark_swap::offer::{public_transfer_terms, ArkOutput, ArkTransfer, TransferVerdict};
use btc_ark_swap::offer_flow::{ark_offer, OfferArgs, OfferPhase};
use btc_ark_swap::progress_flow::{claim_txid, progress_swap, refund_txid, ProgressPhase};
use btc_ark_swap::recovery_flow::{
    abort_ark, exit_fees, progress_ark_recovery, progress_exits_with_held_onchain, AbortPhase, ExitsPhase, RecoverPhase,
};
use btc_ark_swap::refund_flow::{refund_btc, RefundPhase};
use btc_ark_swap::relay::RelayFile;
use btc_ark_swap::request_flow::{btc_request, check_repeated_request, RequestArgs, RequestPhase};
use btc_ark_swap::response::{funding_tx, validate_request, verify_response};
use btc_ark_swap::role::{SwapRole, SwapStatus};
use btc_ark_swap::state::{ensure_funding_inputs_available, StoredBtcArkSwap};
use btc_ark_swap::swap_id::SwapId;
use btc_ark_swap::transfer_flow::{
    complete_btc_ark_transfer, prepare_btc_ark_transfer, FinishPhase, PreparePhase, TransferPlan,
};
use btc_ark_swap::tx::{tx_from_hex, txid_to_string, without_witness, OutPoint, Transaction, TxIn, TxOut};
use btc_ark_swap::txfee::transaction_fee;
use btc_ark_swap::validation::verify_funding_inputs;

const NETWORK: Network = Network::Regtest;
const PACKAGE: &str = "c0ffee";

fn keypair_of(secret: &SecretKey) -> Keypair {
    Keypair::from_seckey_slice(&ark::SECP, &secret.secret_bytes()).unwrap()
}

fn outside_policy(key: &PublicKey) -> ark::VtxoPolicy {
    ark::VtxoPolicy::new_pubkey(bitcoin::secp256k1::PublicKey::from_slice(&key.serialize()).unwrap())
}

fn ark_address(server: &PublicKey, key: &PublicKey) -> String {
    ark::Address::builder()
        .testnet(true)
        .server_pubkey(bitcoin::secp256k1::PublicKey::from_slice(&server.serialize()).unwrap())
        .policy(outside_policy(key))
        .delivery(ark::address::VtxoDelivery::Unknown { delivery_type: 0x7f, data: vec![1] })
        .into_address()
        .unwrap()
        .to_string()
}

fn pay(points: &[OutPoint], outputs: Vec<TxOut>) -> Transaction {
    let input = points
        .iter()
        .map(|point| TxIn {
            previous_output: *point,
            script_sig: vec![],
            sequence: 0xffff_fffd,
            witness: vec![],
        })
        .collect();
    Transaction { version: 2, lock_time: 0, input, output: outputs }
}

fn block(height: u32) -> BlockRef {
    BlockRef { height, hash: [height as u8; 32] }
}

/// One participant: its keys, its relay file and what its wallet remembers.
struct Party {
    keys: Vec<SecretKey>,
    relay: Option<RelayFile>,
    receive: SecretKey,
    payout: Vec<u8>,
    coins: Vec<(OutPoint, TxOut)>,
    vtxos: Vec<Vec<u8>>,
    exits: Vec<VtxoId>,
    imported: Vec<VtxoId>,
    reserved_by: Option<StoredBtcArkSwap>,
    stored: Option<StoredBtcArkSwap>,
    fee_rate: Option<u64>,
    trail: Vec<&'static str>,
}

impl Party {
    fn new() -> Party {
        let receive = SecretKey::random();
        let payout = key_path_script(&SecretKey::random().public_key().x_only_public_key()).unwrap();
        Party {
            keys: vec![],
            relay: None,
            receive,
            payout,
            coins: vec![],
            vtxos: vec![],
            exits: vec![],
            imported: vec![],
            reserved_by: None,
            stored: None,
            fee_rate: Some(2),
            trail: vec![],
        }
    }

    fn vtxo(&self, id: &VtxoId) -> ArkVtxo {
        let found = self.vtxos.iter().map(|bytes| ArkVtxo::deserialize(bytes.clone()).unwrap());
        found.into_iter().find(|vtxo| vtxo.id() == *id).unwrap()
    }
}

/// The chain and the Ark server, which both participants see.
struct World {
    tip: u32,
    fast: u64,
    server: SecretKey,
    txs: HashMap<[u8; 32], (Transaction, Option<u32>)>,
    transfer_inputs: Vec<Vec<u8>>,
    transfer_outputs: Vec<(VtxoId, VtxoPolicy, u32)>,
    registers: bool,
    indexed: bool,
    claimable: bool,
    broken_index: Option<[u8; 32]>,
}

enum Outcome {
    End,
    Answer(bool),
    Finish(Next),
}

impl World {
    fn new() -> World {
        World {
            tip: 100,
            fast: 300,
            server: SecretKey::random(),
            txs: HashMap::new(),
            transfer_inputs: vec![],
            transfer_outputs: vec![],
            registers: true,
            indexed: true,
            claimable: false,
            broken_index: None,
        }
    }

    fn confirm(&mut self, tx: &Transaction, height: u32) {
        self.txs.insert(tx.txid(), (tx.clone(), Some(height)));
    }

    fn mine(&mut self, blocks: u32) {
        self.tip += 1;
        let height = self.tip;
        for (_, confirmed) in self.txs.values_mut() {
            if confirmed.is_none() {
                *confirmed = Some(height);
            }
        }
        self.tip += blocks - 1;
    }

    fn status(&self, txid: &[u8; 32]) -> TxStatus {
        match self.txs.get(txid) {
            None => TxStatus::NotFound,
            Some((_, None)) => TxStatus::Mempool,
            Some((_, Some(height))) => TxStatus::Confirmed(block(*height)),
        }
    }

    fn spender(&self, point: &OutPoint) -> Option<[u8; 32]> {
        let spends = |tx: &Transaction| tx.input.iter().any(|input| input.previous_output == *point);
        self.txs.iter().find(|(_, (tx, _))| spends(tx)).map(|(txid, _)| *txid)
    }

    fn unspent(&self, point: &OutPoint) -> Option<TxOut> {
        if self.spender(point).is_some() {
            return None;
        }
        let (tx, _) = self.txs.get(&point.txid)?;
        tx.output.get(point.vout as usize).cloned()
    }

    fn answer(&self, query: ChainQuery) -> ChainAnswer {
        let reply = match query {
            ChainQuery::Tip => ChainReply::Tip(block(self.tip)),
            ChainQuery::TxStatus(txid) => ChainReply::TxStatus(self.status(&txid)),
            ChainQuery::Block(height) => ChainReply::Block(block(height)),
            ChainQuery::Tx(txid) => ChainReply::Tx(self.txs.get(&txid).map(|(tx, _)| tx.clone())),
            ChainQuery::Unspent(point) => ChainReply::Unspent(self.unspent(&point)),
        };
        ChainAnswer { query, reply }
    }

    fn gather(&self, check: impl Fn(&Vec<ChainAnswer>) -> CheckStep) -> Vec<ChainAnswer> {
        let mut log = vec![];
        while let CheckStep::Need(query) = check(&log) {
            log.push(self.answer(query));
        }
        log
    }

    fn inputs(&self, party: &Party, ids: &[VtxoId], refund_height: u32, margin: u32) -> Reply {
        let inputs: Vec<ArkVtxo> = ids.iter().map(|id| party.vtxo(id)).collect();
        let log = self.gather(|log| verify_live_ark_inputs(log, &inputs, refund_height, margin));
        Reply::Inputs { inputs, log }
    }

    fn outputs(&self) -> Vec<ArkOutput> {
        let copy = |(id, policy, expiry_height): &(VtxoId, VtxoPolicy, u32)| ArkOutput {
            id: *id,
            policy: policy.clone(),
            expiry_height: *expiry_height,
        };
        self.transfer_outputs.iter().map(copy).collect()
    }

    fn cosign(&mut self, party: &Party, inputs: &[VtxoId], policy: &VtxoPolicy, amount: u64, change: &VtxoPolicy) {
        let policy_of = |policy: &VtxoPolicy| ark::VtxoPolicy::deserialize_hex(&policy.serialize_hex()).unwrap();
        let bytes: Vec<Vec<u8>> = party.vtxos.iter()
            .filter(|bytes| inputs.contains(&ArkVtxo::deserialize((*bytes).clone()).unwrap().id()))
            .cloned()
            .collect();
        let builder = ArkoorPackageBuilder::new_single_output_with_checkpoints(
            bytes.iter().map(|bytes| ark::Vtxo::<ark::vtxo::Full>::deserialize(bytes).unwrap()),
            ArkoorDestination { total_amount: Amount::from_sat(amount), policy: policy_of(policy) },
            policy_of(change),
        )
        .unwrap();
        self.transfer_inputs = bytes;
        self.transfer_outputs = builder
            .build_unsigned_vtxos()
            .map(|output| (
                VtxoId::from_str(&output.id().to_string()).unwrap(),
                VtxoPolicy::deserialize_hex(&output.policy().serialize_hex()).unwrap(),
                output.expiry_height().to_u32(),
            ))
            .collect();
    }

    fn perform(&mut self, action: Action, party: &mut Party, state: &mut Option<StoredBtcArkSwap>) -> Result<Reply, SwapError> {
        match action {
            Action::StoreState => {
                state.as_ref().unwrap().validate()?;
                party.trail.push("store");
                Ok(Reply::Done)
            }
            Action::StoreRelay => {
                party.relay = Some(state.as_ref().unwrap().relay.clone());
                party.trail.push("publish");
                Ok(Reply::Done)
            }
            Action::LoadRelay => Ok(Reply::Relay(party.relay.clone().unwrap())),
            Action::TryLoadRelay => Ok(Reply::MaybeRelay(party.relay.clone())),
            Action::FindRelay => Ok(Reply::MaybeRelay(party.relay.clone())),
            Action::LoadState { swap_id, role } => {
                let stored = party.stored.take().unwrap();
                assert_eq!((stored.swap_id.clone(), stored.role), (swap_id.to_string(), role));
                party.trail.push("load");
                Ok(Reply::State(stored))
            }
            Action::CheckRequest(request) => Ok(Reply::Log(self.gather(|log| validate_request(log, &request)))),
            Action::CheckFundingInputs { tx, prevouts } => {
                Ok(Reply::Log(self.gather(|log| verify_funding_inputs(log, 0, &tx, &prevouts))))
            }
            Action::CheckClaimWindow => {
                let state = state.as_ref().unwrap();
                Ok(Reply::Log(self.gather(|log| check_claim_window(NETWORK, state, log))))
            }
            Action::CheckArkInputs(ids) => {
                let request = &state.as_ref().unwrap().relay.request;
                Ok(self.inputs(party, &ids, request.refund_height, request.safety_margin_blocks))
            }
            Action::CheckTransfer(relay) => {
                let artifact = relay.ark_transfer.as_ref().unwrap();
                let offer = artifact.offer.to_offer()?;
                let transfer = ArkTransfer {
                    inputs: self.transfer_inputs.iter().map(|bytes| ArkVtxo::deserialize(bytes.clone()).unwrap()).collect(),
                    outputs: self.outputs(),
                };
                let verified = artifact.transfer_package_hex == PACKAGE;
                let verdict = TransferVerdict { terms: public_transfer_terms(&offer), verified };
                let request = &relay.request;
                let log = self.gather(|log| {
                    verify_live_ark_transfer(log, &offer, &transfer, request.refund_height, request.safety_margin_blocks)
                });
                Ok(Reply::Transfer { transfer, server: self.server.public_key(), verdict, log })
            }
            Action::ValidateArkAddress(address) => parse_ark_address(&address).map(|_| Reply::Done),
            Action::RequireIndex => if self.indexed { Ok(Reply::Done) } else { Err(SwapError::UnexpectedReply) },
            Action::Tip => Ok(Reply::Tip(self.tip)),
            Action::TipRef => Ok(Reply::TipRef(block(self.tip))),
            Action::Confirmed(txid) => Ok(Reply::Confirmed(match self.status(&txid) {
                TxStatus::Confirmed(block) => Some(block.height),
                _ => None,
            })),
            Action::Status(txid) => Ok(Reply::Status(self.status(&txid))),
            Action::FetchTx(txid) => {
                let found = if self.broken_index == Some(txid) { None } else { self.txs.get(&txid) };
                Ok(Reply::Tx(found.map(|(tx, _)| tx.clone())))
            }
            Action::GatherFee { tx, parent } => Ok(Reply::Log(self.gather(|log| {
                match transaction_fee(log, &tx, parent.as_ref()) {
                    Err(step) => step,
                    Ok(_) => CheckStep::Pass,
                }
            }))),
            Action::Ancestors(_) => Ok(Reply::Ancestors { total_fee: 700, effective_rate: Some(600) }),
            Action::Spends { points, .. } => {
                let found = points.iter().filter_map(|point| {
                    let txid = self.spender(point)?;
                    Some((*point, txid, self.status(&txid)))
                });
                Ok(Reply::Spends(found.collect()))
            }
            Action::FeeEstimate { .. } => Ok(Reply::FastRate(self.fast)),
            Action::SyncOnchain => Ok(Reply::Done),
            Action::MakeChild { parent, fees } => {
                let rate = match fees {
                    CpfpFees::Effective(rate) => rate,
                    CpfpFees::Rbf { min_effective_fee_rate, current_package_fee } => {
                        assert!(current_package_fee > 0);
                        min_effective_fee_rate
                    }
                };
                let anchor = OutPoint { txid: parent.txid(), vout: parent.output.len() as u32 - 1 };
                let (coin, output) = party.coins[0].clone();
                let value = output.value - rate;
                party.trail.push("child");
                Ok(Reply::Child(pay(&[anchor, coin], vec![TxOut { value, script_pubkey: party.payout.clone() }])))
            }
            Action::StoreChild(_) => Ok(Reply::Done),
            Action::Broadcast(tx) => {
                party.trail.push("broadcast");
                self.txs.insert(tx.txid(), (tx, None));
                Ok(Reply::Done)
            }
            Action::BroadcastPackage(parent, child) => {
                party.trail.push("broadcast");
                self.txs.entry(parent.txid()).or_insert((parent, None));
                self.txs.insert(child.txid(), (child, None));
                Ok(Reply::Done)
            }
            Action::Key(index) => Ok(Reply::Key(party.keys[index as usize])),
            Action::NewKey => {
                party.keys.push(SecretKey::random());
                let index = party.keys.len() - 1;
                Ok(Reply::NewKey(party.keys[index], index as u32))
            }
            Action::LockVtxos(_) => {
                party.trail.push("lock");
                Ok(Reply::Done)
            }
            Action::SelectInputs { amount, refund_height, safety_margin_blocks } => {
                let mut ids = vec![];
                let mut sum = 0;
                for bytes in &party.vtxos {
                    let vtxo = ArkVtxo::deserialize(bytes.clone()).unwrap();
                    if sum < amount {
                        sum += vtxo.txout().value;
                        ids.push(vtxo.id());
                    }
                }
                Ok(self.inputs(party, &ids, refund_height, safety_margin_blocks))
            }
            Action::PrepareTransfer { destination, amount, payout, point, inputs } => {
                let plan = TransferPlan { destination, amount, payout, point, inputs };
                let mut phase = PreparePhase::Begin;
                let mut reply = Reply::Done;
                loop {
                    let (next, action) = prepare_btc_ark_transfer(&plan, phase, reply)?;
                    if let (PreparePhase::Ready { offer, transfer_hex }, true) = (&next, matches!(action, Action::End)) {
                        let copy = btc_ark_swap::artifacts::ArkOfferArtifact::from_offer(offer).to_offer()?;
                        return Ok(Reply::Prepared { offer: copy, transfer_hex: transfer_hex.clone() });
                    }
                    phase = next;
                    reply = self.perform(action, party, state)?;
                }
            }
            Action::ServerKey => Ok(Reply::Server(self.server.public_key())),
            Action::RegisterInputs(_) => Ok(Reply::Done),
            Action::PeekKey => Ok(Reply::NewKey(party.receive, 1_000)),
            Action::StoreKey { index, key } => {
                assert_eq!(index, 1_000);
                assert!(key.same(&party.receive.public_key()));
                party.trail.push("change");
                Ok(Reply::Done)
            }
            Action::Cosign { inputs, policy, amount, change, .. } => {
                party.trail.push("cosign");
                self.cosign(party, &inputs, &policy, amount, &change);
                Ok(Reply::Cosigned { outputs: self.outputs(), transfer_hex: PACKAGE.to_owned() })
            }
            Action::IsOurs(id) => {
                let ours = VtxoPolicy::new_pubkey(&party.receive.public_key());
                Ok(Reply::Answer(self.outputs().iter().any(|output| output.id == id && output.policy.same(&ours))))
            }
            Action::MarkSpent(_) => {
                party.trail.push("spent");
                Ok(Reply::Done)
            }
            Action::CompleteTransfer { transfer_hex, secret } => {
                let mut phase = FinishPhase::Begin;
                let mut reply = Reply::Done;
                loop {
                    let (next, action) = complete_btc_ark_transfer(&transfer_hex, secret, phase, reply)?;
                    if matches!(action, Action::End) {
                        assert!(matches!(next, FinishPhase::Ready { .. }));
                        return Ok(Reply::Done);
                    }
                    phase = next;
                    reply = self.perform(action, party, state)?;
                }
            }
            Action::FinalizeTransfer { transfer_hex, secret } => {
                let point = state.as_ref().unwrap().relay.terms()?.adaptor_point.clone();
                assert_eq!(transfer_hex, PACKAGE);
                assert_eq!(secret.point().to_string(), point);
                Ok(Reply::Outputs(self.outputs()))
            }
            Action::ImportVtxo(id) => {
                party.imported.push(id);
                party.trail.push("import");
                Ok(Reply::Done)
            }
            Action::RegisterTransfer => Ok(Reply::Registered(self.registers)),
            Action::TrackedExits => Ok(Reply::Ids(party.exits.clone())),
            Action::StartExits(ids) => {
                party.trail.push("exit");
                party.exits.extend(ids);
                Ok(Reply::Done)
            }
            Action::ProgressExits { target } => {
                let mut phase = ExitsPhase::Begin;
                let mut reply = Reply::Done;
                loop {
                    let (next, action) = progress_exits_with_held_onchain(target, phase, reply)?;
                    if matches!(action, Action::End) {
                        return Ok(Reply::Done);
                    }
                    phase = next;
                    reply = self.perform(action, party, state)?;
                }
            }
            Action::AdvanceExits => {
                let exit = |value, rbf| ExitRequest {
                    exit_tx: pay(&[OutPoint { txid: [value as u8; 32], vout: 0 }], vec![TxOut { value, script_pubkey: vec![] }]),
                    rbf,
                };
                Ok(Reply::ExitRequests(vec![exit(1, None), exit(2, Some((u64::MAX, 5))), exit(3, Some((1, 5)))]))
            }
            Action::ProvideChild { .. } => {
                party.trail.push("provide");
                Ok(Reply::Done)
            }
            Action::ClaimableExits => Ok(Reply::Ids(if self.claimable { party.exits.clone() } else { vec![] })),
            Action::NewScript => Ok(Reply::Script(party.payout.clone())),
            Action::DrainExits { ids, script, target } => {
                let points: Vec<OutPoint> = ids.iter().map(|id| id.point).collect();
                let mut total = 0;
                for point in &points {
                    let tx = &self.txs[&point.txid].0;
                    total += tx.output[point.vout as usize].value;
                }
                let mut tx = pay(&points, vec![TxOut { value: total, script_pubkey: script }]);
                for input in &mut tx.input {
                    input.witness.push(vec![1; 64]);
                }
                tx.output[0].value -= target * tx.weight_units() / 1_000 + 1;
                Ok(Reply::Transaction(tx))
            }
            Action::SignReclaim { tx, ids } => {
                assert_eq!(tx.input.len(), ids.len());
                Ok(Reply::Witnesses(ids.iter().map(|_| vec![vec![2; 64]]).collect()))
            }
            Action::PrepareFunding { script, amount, .. } => {
                let (coin, output) = party.coins[0].clone();
                let change = TxOut { value: output.value - amount - 1_000, script_pubkey: party.payout.clone() };
                let tx = pay(&[coin], vec![change, TxOut { value: amount, script_pubkey: script }]);
                let outside: bitcoin::Transaction = bitcoin::consensus::encode::deserialize_hex(&tx.to_hex()).unwrap();
                let psbt_hex = bytes_hex(&bitcoin::Psbt::from_unsigned_tx(outside).unwrap().serialize());
                Ok(Reply::Funding { tx, prevouts: vec![Some(output)], psbt_hex })
            }
            Action::CheckReservations { tx, height } => {
                if let Some(other) = &party.reserved_by {
                    ensure_funding_inputs_available(&tx, other, height)?;
                }
                Ok(Reply::Done)
            }
            Action::SignFunding { psbt_hex } => {
                let psbt = bitcoin::Psbt::deserialize(&bytes_from_hex(&psbt_hex).unwrap()).unwrap();
                let mut tx = tx_from_hex(&bitcoin::consensus::encode::serialize_hex(&psbt.unsigned_tx)).unwrap();
                for input in &mut tx.input {
                    input.witness.push(vec![3; 64]);
                }
                Ok(Reply::Transaction(tx))
            }
            Action::Run(flow) => {
                let mut stored = state.take().unwrap();
                let outcome = self.run(flow, party, &mut stored);
                *state = Some(stored);
                Ok(match outcome? {
                    Outcome::End => Reply::Done,
                    Outcome::Answer(answer) => Reply::Answer(answer),
                    Outcome::Finish(next) => Reply::Finished(next),
                })
            }
            Action::End | Action::Answer(_) | Action::Finish(_) => unreachable!(),
        }
    }

    fn drive<P>(
        &mut self,
        party: &mut Party,
        state: &mut Option<StoredBtcArkSwap>,
        begin: P,
        mut step: impl FnMut(P, Reply, &mut Option<StoredBtcArkSwap>) -> Result<(P, Action), SwapError>,
    ) -> Result<Outcome, SwapError> {
        let mut phase = begin;
        let mut reply = Reply::Done;
        loop {
            let (next, action) = step(phase, reply, state)?;
            phase = next;
            reply = match action {
                Action::End => return Ok(Outcome::End),
                Action::Answer(answer) => return Ok(Outcome::Answer(answer)),
                Action::Finish(next) => return Ok(Outcome::Finish(next)),
                action => self.perform(action, party, state)?,
            };
        }
    }

    fn run(&mut self, flow: SubFlow, party: &mut Party, stored: &mut StoredBtcArkSwap) -> Result<Outcome, SwapError> {
        let context = FlowContext { network: NETWORK, fee_rate: party.fee_rate };
        let estimate = FlowContext { network: NETWORK, fee_rate: None };
        let relay = stored.relay.clone();
        let blank = StoredBtcArkSwap::new(SwapId::from_bytes([0; 32]), stored.role, String::new(), 0, relay);
        let mut state = Some(std::mem::replace(stored, blank));
        let state = &mut state;
        let outcome = match flow {
            SubFlow::ReceiveFunding => self.drive(party, state, ReceivePhase::Begin, |phase, reply, state| {
                receive_funding_message(context, phase, reply, state.as_mut().unwrap())
            }),
            SubFlow::ObserveClaim => self.drive(party, state, ObservePhase::Begin, |phase, reply, state| {
                observe_claim(phase, reply, state.as_mut().unwrap())
            }),
            SubFlow::CompleteArk => self.drive(party, state, CompletePhase::Begin, |phase, reply, state| {
                complete_ark(phase, reply, state.as_mut().unwrap())
            }),
            SubFlow::ClaimBtc => self.drive(party, state, ClaimPhase::Begin, |phase, reply, state| {
                claim_btc(context, phase, reply, state.as_mut().unwrap())
            }),
            SubFlow::BroadcastClaim => self.drive(party, state, BroadcastPhase::Begin, |phase, reply, state| {
                broadcast_claim(context, phase, reply, state.as_mut().unwrap())
            }),
            SubFlow::RefundBtc => self.drive(party, state, RefundPhase::Begin, |phase, reply, state| {
                refund_btc(context, phase, reply, state.as_mut().unwrap())
            }),
            SubFlow::AbortArk => self.drive(party, state, AbortPhase::Begin, |phase, reply, state| {
                abort_ark(phase, reply, state.as_mut().unwrap())
            }),
            SubFlow::RecoverArk => self.drive(party, state, RecoverPhase::Begin, |phase, reply, state| {
                progress_ark_recovery(context, phase, reply, state.as_mut().unwrap())
            }),
            SubFlow::RecoverArkAtEstimate => self.drive(party, state, RecoverPhase::Begin, |phase, reply, state| {
                progress_ark_recovery(estimate, phase, reply, state.as_mut().unwrap())
            }),
        };
        *stored = state.take().unwrap();
        outcome
    }

    fn progress(&mut self, party: &mut Party, state: &mut Option<StoredBtcArkSwap>) -> Result<&'static str, SwapError> {
        party.trail.clear();
        let outcome = self.drive(party, state, ProgressPhase::Begin, |phase, reply, state| {
            progress_swap(phase, reply, state.as_ref().unwrap())
        })?;
        match outcome {
            Outcome::Finish(next) => Ok(next.text()),
            _ => unreachable!(),
        }
    }

    fn manual(&mut self, step: ManualStep, party: &mut Party, state: &mut Option<StoredBtcArkSwap>) -> Result<&'static str, SwapError> {
        party.trail.clear();
        let outcome = self.drive(party, state, ManualPhase::Begin, |phase, reply, state| {
            manual_step(step, phase, reply, state.as_ref().unwrap())
        })?;
        match outcome {
            Outcome::Finish(next) => Ok(next.text()),
            _ => unreachable!(),
        }
    }

    fn request(&mut self, bob: &mut Party, args: &RequestArgs) -> Result<Option<StoredBtcArkSwap>, SwapError> {
        let mut state = None;
        bob.trail.clear();
        self.drive(bob, &mut state, RequestPhase::Begin, |phase, reply, state| {
            btc_request(args, &"bob.json".to_owned(), phase, reply, state)
        })?;
        Ok(state)
    }

    fn offer(&mut self, alice: &mut Party, args: &OfferArgs, state: &mut Option<StoredBtcArkSwap>) -> Result<(), SwapError> {
        alice.trail.clear();
        self.drive(alice, state, OfferPhase::Begin, |phase, reply, state| ark_offer(args, phase, reply, state))?;
        Ok(())
    }

    fn fund(&mut self, bob: &mut Party, state: &mut Option<StoredBtcArkSwap>) -> Result<(), SwapError> {
        bob.trail.clear();
        let context = FlowContext { network: NETWORK, fee_rate: None };
        self.drive(bob, state, FundPhase::Begin, |phase, reply, state| {
            btc_fund(context, phase, reply, state.as_mut().unwrap())
        })?;
        Ok(())
    }
}

/// Two funded wallets and the arguments of a swap between them.
struct Swap {
    world: World,
    bob: Party,
    alice: Party,
    request: RequestArgs,
    bob_state: Option<StoredBtcArkSwap>,
    alice_state: Option<StoredBtcArkSwap>,
    offer: Option<OfferArgs>,
}

impl Swap {
    fn new() -> Swap {
        let mut world = World::new();
        let mut bob = Party::new();
        let mut alice = Party::new();
        for party in [&mut bob, &mut alice] {
            let output = TxOut { value: 100_000, script_pubkey: party.payout.clone() };
            let coin = pay(&[OutPoint { txid: party.receive.secret_bytes(), vout: 0 }], vec![output.clone()]);
            world.confirm(&coin, 60);
            party.coins.push((OutPoint { txid: coin.txid(), vout: 0 }, output));
        }
        let spec = DummyTestVtxoSpec {
            amount: Amount::from_sat(100_000),
            fee: Amount::ZERO,
            expiry_height: 10_000.into(),
            exit_delta: 144.into(),
            user_keypair: keypair_of(&alice.receive),
            server_keypair: keypair_of(&world.server),
        };
        let (funding, vtxo) = spec.build();
        let anchor = tx_from_hex(&bitcoin::consensus::encode::serialize_hex(&funding)).unwrap();
        world.confirm(&anchor, 50);
        alice.vtxos.push(vtxo.serialize());
        let request = RequestArgs {
            amount: 80_000,
            ark_receive: ark_address(&world.server.public_key(), &bob.receive.public_key()),
            fee_rate: 1,
            refund_delay: 24,
            confirmations: 6,
            safety_margin: 6,
        };
        Swap { world, bob, alice, request, bob_state: None, alice_state: None, offer: None }
    }

    fn requested() -> Swap {
        let mut swap = Swap::new();
        swap.bob_state = swap.world.request(&mut swap.bob, &swap.request).unwrap();
        swap.alice.relay = swap.bob.relay.clone();
        let id = swap.bob_state.as_ref().unwrap().swap_id.clone();
        swap.offer = Some(OfferArgs {
            network: NETWORK,
            swap_id: SwapId::from_str(&id).unwrap(),
            coordinator: "alice.json".to_owned(),
            payout: taproot_address(&swap.alice.payout, NETWORK),
        });
        swap
    }

    fn make_offer(&mut self) -> Result<(), SwapError> {
        self.world.offer(&mut self.alice, self.offer.as_ref().unwrap(), &mut self.alice_state)
    }

    fn offered() -> Swap {
        let mut swap = Swap::requested();
        swap.make_offer().unwrap();
        swap.bob.relay = swap.alice.relay.clone();
        swap
    }

    fn make_funding(&mut self) -> Result<(), SwapError> {
        self.world.fund(&mut self.bob, &mut self.bob_state)
    }

    fn funded() -> Swap {
        let mut swap = Swap::offered();
        swap.make_funding().unwrap();
        swap.alice.relay = swap.bob.relay.clone();
        swap
    }

    /// The funding is deep enough, and the claim is in the mempool.
    fn claimed() -> Swap {
        let mut swap = Swap::funded();
        assert_eq!(swap.alice_progress(), Ok("await-funding-confirmation"));
        swap.world.mine(6);
        assert_eq!(swap.alice_progress(), Ok("await-claim-confirmation"));
        swap
    }

    fn alice_progress(&mut self) -> Result<&'static str, SwapError> {
        self.world.progress(&mut self.alice, &mut self.alice_state)
    }

    fn bob_progress(&mut self) -> Result<&'static str, SwapError> {
        self.world.progress(&mut self.bob, &mut self.bob_state)
    }

    fn alice_state(&mut self) -> &mut StoredBtcArkSwap {
        self.alice_state.as_mut().unwrap()
    }

    fn bob_state(&mut self) -> &mut StoredBtcArkSwap {
        self.bob_state.as_mut().unwrap()
    }
}

fn at(trail: &[&'static str], what: &str) -> usize {
    trail.iter().position(|step| *step == what).unwrap()
}

#[test]
fn three_messages_settle_a_swap() {
    let mut swap = Swap::requested();
    assert_eq!(swap.bob_state().status, SwapStatus::Requested);
    assert_eq!(swap.bob_state().relay.request.created_height, 100);
    assert_eq!(swap.bob_state().relay.request.refund_height, 124);
    assert_eq!(swap.bob_state().relay.request.funding_output_index, 1);
    assert!(swap.bob_state().btc_secret_nonce.is_some());
    assert_eq!(swap.bob.trail, vec!["store", "publish"]);

    swap.make_offer().unwrap();
    assert_eq!(swap.alice_state().status, SwapStatus::Offered);
    assert_eq!(swap.alice.trail, vec!["store", "lock", "cosign", "change", "store", "publish"]);
    let offered = swap.alice.relay.clone().unwrap();
    assert!(verify_response(NETWORK, &offered).is_ok());
    swap.bob.relay = Some(offered);

    swap.make_funding().unwrap();
    assert_eq!(swap.bob_state().status, SwapStatus::BtcClaimReady);
    assert_eq!(swap.bob.trail, vec!["store", "store", "broadcast", "publish"]);
    assert!(swap.bob_state().btc_secret_nonce.is_none());
    assert!(swap.bob_state().funding_psbt_hex.is_none());
    let funded = swap.bob.relay.clone().unwrap();
    assert_eq!(
        Some(funded.response_commitment_hash_hex().unwrap()),
        swap.alice_state().peer_transcript_hash_hex.clone()
    );
    swap.alice.relay = Some(funded);

    assert_eq!(swap.alice_progress(), Ok("await-funding-confirmation"));
    assert_eq!(swap.bob_progress(), Ok("await-btc-claim"));
    swap.world.mine(5);
    assert_eq!(swap.alice_progress(), Ok("await-funding-confirmation"));
    swap.world.mine(1);
    assert_eq!(swap.alice_progress(), Ok("await-claim-confirmation"));
    assert!(at(&swap.alice.trail, "child") < at(&swap.alice.trail, "store"));
    assert!(at(&swap.alice.trail, "store") < at(&swap.alice.trail, "broadcast"));
    assert_eq!(swap.alice.imported.len(), 1);

    assert_eq!(swap.bob_progress(), Ok("done"));
    assert_eq!(swap.bob_state().status, SwapStatus::ArkCompleted);
    assert_eq!(swap.bob.imported.len(), 1);
    let point = OutPoint { txid: tx_from_hex(swap.bob_state().signed_claim_tx_hex.as_ref().unwrap()).unwrap().txid(), vout: 0 };
    assert_eq!(swap.world.unspent(&point).unwrap().script_pubkey, swap.alice.payout);

    swap.world.mine(6);
    assert_eq!(swap.alice_progress(), Ok("done"));
    assert_eq!(swap.alice_state().status, SwapStatus::BtcClaimed);
    assert_eq!(swap.alice_progress(), Ok("done"));
    assert!(swap.alice.trail.is_empty());
    assert_eq!(swap.bob_progress(), Ok("done"));
    let shown = claim_txid(swap.alice_state());
    assert_eq!(shown, Some(txid_to_string(&point.txid)));
    assert_eq!(refund_txid(swap.alice_state()), None);
    assert!(refund_txid(swap.bob_state()).is_some());
}

#[test]
fn settlement_sends_no_message() {
    let mut swap = Swap::funded();
    swap.world.mine(6);
    for _ in 0..4 {
        swap.alice_progress().unwrap();
        assert!(!swap.alice.trail.contains(&"publish"));
        swap.bob_progress().unwrap();
        assert!(!swap.bob.trail.contains(&"publish"));
        swap.world.mine(6);
    }
    assert_eq!(swap.alice_state().status, SwapStatus::BtcClaimed);
    assert_eq!(swap.bob_state().status, SwapStatus::ArkCompleted);

    let mut swap = Swap::funded();
    swap.world.mine(6);
    swap.world.tip = 124;
    swap.bob_progress().unwrap();
    assert_eq!(swap.bob.trail.last(), Some(&"broadcast"));
    assert!(!swap.bob.trail.contains(&"publish"));
}

#[test]
fn observed_claims_give_the_secret() {
    let mut swap = Swap::claimed();
    let outcome = swap.world.run(SubFlow::ObserveClaim, &mut swap.bob, swap.bob_state.as_mut().unwrap()).unwrap();
    assert!(matches!(outcome, Outcome::Answer(true)));
    let claim = tx_from_hex(swap.bob_state().signed_claim_tx_hex.as_ref().unwrap()).unwrap();
    let recovered = recover_from_claim(swap.bob_state(), &claim).ok().unwrap();
    let kept = secret_key_from_hex(swap.alice_state().adaptor_secret_hex.as_ref().unwrap()).ok().unwrap();
    assert_eq!(recovered.secret_key().secret_bytes(), kept.secret_bytes());
    let bare = without_witness(&claim);
    assert_eq!(recover_from_claim(swap.bob_state(), &bare).err(), Some(SwapError::ClaimSignatureMissing));
}

#[test]
fn changed_claims_are_not_accepted() {
    let observe = |change: fn(&mut Transaction)| {
        let mut swap = Swap::claimed();
        let request = swap.bob_state().relay.claim_request.as_ref().unwrap().claim_tx_hex.clone();
        let txid = tx_from_hex(&request).unwrap().txid();
        change(&mut swap.world.txs.get_mut(&txid).unwrap().0);
        swap.world.run(SubFlow::ObserveClaim, &mut swap.bob, swap.bob_state.as_mut().unwrap()).err()
    };
    assert_eq!(observe(|_| {}), None);
    assert_eq!(observe(|tx| tx.output[0].value -= 1), Some(SwapError::ClaimDiffers));
    assert_eq!(observe(|tx| tx.input[0].witness.clear()), Some(SwapError::ClaimSignatureMissing));
    assert_eq!(observe(|tx| tx.input[0].witness.push(vec![1])), Some(SwapError::ClaimNotKeySpend));
    assert_eq!(observe(|tx| tx.input[0].witness[0].push(1)), Some(SwapError::ClaimNotKeySpend));
    assert_eq!(observe(|tx| tx.input[0].witness[0][0] ^= 1), Some(SwapError::ClaimSignatureInvalid));
}

#[test]
fn repeated_requests_keep_their_nonce() {
    let mut swap = Swap::requested();
    let mut relay = swap.bob.relay.clone().unwrap();
    let check = |swap: &mut Swap, relay: &RelayFile| {
        check_repeated_request(&swap.request, relay, swap.bob_state.as_ref().unwrap())
    };
    assert_eq!(check(&mut swap, &relay), Ok(()));
    let changes: &[fn(&mut RequestArgs)] = &[
        |a| a.amount += 1,
        |a| a.ark_receive = ark_address(&SecretKey::random().public_key(), &SecretKey::random().public_key()),
        |a| a.fee_rate += 1,
        |a| a.refund_delay += 1,
        |a| a.confirmations += 1,
        |a| a.safety_margin += 1,
    ];
    for change in changes {
        let mut other = Swap::requested();
        std::mem::swap(&mut other.bob_state, &mut swap.bob_state);
        other.request.ark_receive = swap.request.ark_receive.clone();
        change(&mut other.request);
        assert_eq!(check(&mut other, &relay), Err(SwapError::ArgumentsChanged));
        std::mem::swap(&mut other.bob_state, &mut swap.bob_state);
    }
    relay.request.amount_sat += 1;
    assert_eq!(check(&mut swap, &relay), Err(SwapError::RequestChanged));
}

#[test]
fn requests_are_not_made_again_over_a_relay_file() {
    let mut swap = Swap::offered();
    let (relay, keys) = (swap.bob.relay.clone(), swap.bob.keys.len());
    let nonce = swap.bob_state().btc_secret_nonce.clone();
    swap.bob.stored = swap.bob_state.take();
    swap.bob_state = swap.world.request(&mut swap.bob, &swap.request).unwrap();
    assert_eq!(swap.bob.trail, vec!["load"]);
    assert_eq!(swap.bob_state().btc_secret_nonce, nonce);
    assert_eq!(swap.bob.keys.len(), keys);
    assert_eq!(swap.bob.relay, relay);
    swap.request.refund_delay += 1;
    swap.bob.stored = swap.bob_state.take();
    assert_eq!(swap.world.request(&mut swap.bob, &swap.request).err(), Some(SwapError::ArgumentsChanged));
    assert_eq!(swap.bob.trail, vec!["load"]);
    assert_eq!(swap.bob.relay, relay);
    swap.bob.relay.as_mut().unwrap().swap_id.pop();
    assert_eq!(swap.world.request(&mut swap.bob, &swap.request).err(), Some(SwapError::InvalidSwapId));
}

#[test]
fn unsent_fundings_are_checked_before_their_first_broadcast() {
    let unsent = |change: fn(&mut Swap)| {
        let mut swap = Swap::offered();
        let offer = swap.bob.relay.clone();
        swap.make_funding().unwrap();
        swap.bob.relay = offer;
        let funding = funding_tx(&swap.bob_state().relay).unwrap();
        swap.world.txs.remove(&funding.txid());
        change(&mut swap);
        let next = swap.bob_progress();
        assert_eq!(next.is_ok(), swap.bob.trail.contains(&"broadcast"));
        assert_eq!(next.is_ok(), swap.world.status(&funding.txid()) == TxStatus::Mempool);
        next
    };
    assert_eq!(unsent(|_| {}), Ok("await-btc-claim"));
    assert_eq!(unsent(|s| s.world.tip = 111), Ok("await-btc-claim"));
    assert_eq!(unsent(|s| s.world.tip = 112), Err(SwapError::WindowTooShort));
    assert_eq!(
        unsent(|s| { s.world.txs.remove(&s.bob.coins[0].0.txid); }),
        Err(SwapError::NotConfirmed)
    );
    let published = |s: &mut Swap| {
        let vtxo = ArkVtxo::deserialize(s.alice.vtxos[0].clone()).unwrap();
        let anchor = s.world.txs[&vtxo.chain_anchor().txid].0.clone();
        let exit = vtxo.valid_exits(&anchor).unwrap().remove(0).0;
        s.world.confirm(&exit, 100);
    };
    assert_eq!(unsent(published), Err(SwapError::ExitPublished));
    // Without a relay file, nothing tells that the funding was sent.
    assert_eq!(
        unsent(|s| {
            s.bob.relay = None;
            s.world.tip = 112;
        }),
        Err(SwapError::WindowTooShort)
    );
    // A relay file with another pre-signature does not tell it either.
    assert_eq!(
        unsent(|s| {
            let mut relay = s.bob_state().relay.clone();
            relay.btc_claim_adaptor.as_mut().unwrap().pre_signature_hex.push('0');
            s.bob.relay = Some(relay);
            s.world.tip = 112;
        }),
        Err(SwapError::WindowTooShort)
    );
}

#[test]
fn sent_fundings_that_vanish_are_sent_again_as_they_are() {
    for tip in [100, 111, 112, 123] {
        let mut swap = Swap::funded();
        let funding = funding_tx(&swap.bob_state().relay).unwrap();
        swap.world.txs.remove(&funding.txid());
        swap.world.txs.remove(&swap.bob.coins[0].0.txid);
        swap.world.tip = tip;
        assert_eq!(swap.bob_progress(), Ok("await-btc-claim"));
        assert_eq!(swap.world.status(&funding.txid()), TxStatus::Mempool);
        assert!(swap.bob.trail.contains(&"broadcast"));
    }
}

#[test]
fn commands_by_hand_go_one_step() {
    let mut swap = Swap::funded();
    let complete = |swap: &mut Swap| swap.world.manual(ManualStep::CompleteArk, &mut swap.bob, &mut swap.bob_state);
    assert_eq!(complete(&mut swap), Err(SwapError::ClaimNotVisible));
    swap.world.mine(6);
    let claimed = swap.world.manual(ManualStep::FinalizeClaim, &mut swap.alice, &mut swap.alice_state);
    assert_eq!(claimed, Ok("progress"));
    assert!(swap.alice_state().signed_claim_tx_hex.is_some());
    let abort = swap.world.manual(ManualStep::AbortArk, &mut swap.alice, &mut swap.alice_state);
    assert_eq!(abort, Err(SwapError::SecretMayBePublic));
    assert_eq!(complete(&mut swap), Ok("done"));
    let refund = swap.world.manual(ManualStep::RefundBtc, &mut swap.bob, &mut swap.bob_state);
    assert_eq!(refund, Err(SwapError::ArkAlreadyReceived));
}

#[test]
fn requests_refuse_unsafe_arguments() {
    let refused = |change: fn(&mut Swap)| {
        let mut swap = Swap::new();
        change(&mut swap);
        swap.world.request(&mut swap.bob, &swap.request).err()
    };
    assert_eq!(refused(|_| {}), None);
    assert_eq!(refused(|s| s.request.amount = 0), Some(SwapError::InvalidSafetyParameters));
    assert_eq!(refused(|s| s.request.confirmations = 0), Some(SwapError::InvalidSafetyParameters));
    assert_eq!(refused(|s| s.request.safety_margin = 0), Some(SwapError::InvalidSafetyParameters));
    assert_eq!(refused(|s| s.request.safety_margin = 5), Some(SwapError::MarginBelowConfirmations));
    assert_eq!(refused(|s| s.request.refund_delay = 12), Some(SwapError::WindowTooShort));
    assert_eq!(refused(|s| s.request.safety_margin = u32::MAX), Some(SwapError::HeightOverflow));
    assert_eq!(refused(|s| s.request.ark_receive.push('x')), Some(SwapError::InvalidArkAddress));
    assert_eq!(refused(|s| s.request.fee_rate = 0), Some(SwapError::FeeRateZero));
    assert_eq!(refused(|s| s.request.refund_delay = 500_000_000), Some(SwapError::InvalidRefundHeight));
    assert_eq!(refused(|s| s.request.refund_delay = u32::MAX), Some(SwapError::HeightOverflow));
    assert_eq!(refused(|s| s.bob.coins[0].1.script_pubkey = vec![0x51]), Some(SwapError::FundingNotSegwit));
    assert_eq!(refused(|s| { s.world.txs.remove(&s.bob.coins[0].0.txid); }), Some(SwapError::NotConfirmed));
}

#[test]
fn funding_is_not_promised_twice() {
    let mut swap = Swap::requested();
    swap.bob.reserved_by = swap.bob_state.take();
    swap.bob.relay = None;
    assert_eq!(swap.world.request(&mut swap.bob, &swap.request).err(), Some(SwapError::FundingInputsReserved));
}

#[test]
fn templates_need_their_placeholder_and_prevouts() {
    let refused = |change: fn(&mut Reply)| {
        let mut swap = Swap::new();
        let mut state = None;
        let mut phase = RequestPhase::Begin;
        let mut reply = Reply::Done;
        loop {
            let (next, action) =
                match btc_request(&swap.request, &"bob.json".to_owned(), phase, reply, &mut state) {
                    Ok(step) => step,
                    Err(error) => return Some(error),
                };
            if matches!(action, Action::End) {
                return None;
            }
            phase = next;
            reply = swap.world.perform(action, &mut swap.bob, &mut state).unwrap();
            if matches!(reply, Reply::Funding { .. }) {
                change(&mut reply);
            }
        }
    };
    assert_eq!(refused(|_| {}), None);
    assert_eq!(
        refused(|reply| if let Reply::Funding { tx, .. } = reply { tx.output[1].value -= 1 }),
        Some(SwapError::PlaceholderMissing)
    );
    assert_eq!(
        refused(|reply| if let Reply::Funding { prevouts, .. } = reply { prevouts[0] = None }),
        Some(SwapError::PrevoutMissing)
    );
}

#[test]
fn unsafe_offers_are_refused_before_the_server_signs() {
    let refused = |change: fn(&mut Swap)| {
        let mut swap = Swap::requested();
        change(&mut swap);
        let error = swap.make_offer().err();
        assert!(error.is_none() || !swap.alice.trail.contains(&"cosign"));
        error
    };
    assert_eq!(refused(|_| {}), None);
    assert_eq!(refused(|s| s.offer.as_mut().unwrap().payout = "nowhere".to_owned()), Some(SwapError::InvalidAddress));
    assert_eq!(refused(|s| s.offer.as_mut().unwrap().swap_id = SwapId::random()), Some(SwapError::SwapMismatch));
    assert_eq!(refused(|s| s.world.tip = 112), Some(SwapError::WindowTooShort));
    assert_eq!(refused(|s| s.world.tip = 99), Some(SwapError::InvalidRequestHeight));
    assert_eq!(
        refused(|s| s.alice.relay.as_mut().unwrap().request.ark_receive.push('x')),
        Some(SwapError::InvalidArkAddress)
    );
    assert_eq!(
        refused(|s| s.alice.relay.as_mut().unwrap().ark_claim_partial = Some(
            btc_ark_swap::artifacts::ArkClaimPartialArtifact {
                ark_public_nonce_hex: String::new(),
                ark_partial_sig_hex: String::new(),
            }
        )),
        Some(SwapError::RequestAnswered)
    );
    assert_eq!(
        refused(|s| {
            let request = &mut s.alice.relay.as_mut().unwrap().request;
            let mut tx = tx_from_hex(&request.funding_template_hex).unwrap();
            tx.lock_time = request.created_height + 1;
            request.funding_template_hex = tx.to_hex();
        }),
        Some(SwapError::TemplateTimelocked)
    );
    assert_eq!(
        refused(|s| {
            let coin = s.bob.coins[0].0;
            let spend = pay(&[coin], vec![]);
            s.world.txs.insert(spend.txid(), (spend, None));
        }),
        Some(SwapError::FundingInputSpent)
    );
    assert_eq!(
        refused(|s| {
            let vtxo = ArkVtxo::deserialize(s.alice.vtxos[0].clone()).unwrap();
            let spend = pay(&[vtxo.chain_anchor()], vec![]);
            s.world.txs.insert(spend.txid(), (spend, None));
        }),
        Some(SwapError::AnchorSpent)
    );
}

#[test]
fn refund_windows_end_before_the_inputs_exit() {
    let mut swap = Swap::new();
    swap.request.refund_delay = 140;
    swap.bob_state = swap.world.request(&mut swap.bob, &swap.request).unwrap();
    swap.alice.relay = swap.bob.relay.clone();
    let id = swap.bob_state().swap_id.clone();
    swap.offer = Some(OfferArgs {
        network: NETWORK,
        swap_id: SwapId::from_str(&id).unwrap(),
        coordinator: String::new(),
        payout: taproot_address(&swap.alice.payout, NETWORK),
    });
    assert_eq!(swap.make_offer(), Err(SwapError::ArkExitTooSoon));
    assert!(swap.alice_state.is_none());
}

#[test]
fn offers_are_replayed_and_never_signed_again() {
    let mut swap = Swap::offered();
    let first = swap.alice.relay.clone().unwrap();
    swap.make_offer().unwrap();
    assert_eq!(swap.alice.trail, vec!["publish"]);
    assert_eq!(swap.alice.relay, Some(first.clone()));
    swap.offer.as_mut().unwrap().payout = taproot_address(&swap.bob.payout, NETWORK);
    assert_eq!(swap.make_offer(), Err(SwapError::PayoutChanged));

    let mut swap = Swap::funded();
    swap.make_offer().unwrap();
    assert!(swap.alice.trail.is_empty());
    swap.alice.relay.as_mut().unwrap().terms.as_mut().unwrap().amount_sat += 1;
    assert_eq!(swap.make_offer(), Err(SwapError::TranscriptChanged));
    swap.alice.relay.as_mut().unwrap().request.amount_sat += 1;
    assert_eq!(swap.make_offer(), Err(SwapError::RequestChanged));
    swap.alice_state().status = SwapStatus::BtcClaimReady;
    assert_eq!(swap.make_offer(), Err(SwapError::NotAwaitingFunding));
    swap.alice_state().status = SwapStatus::Cancelled;
    assert_eq!(swap.make_offer(), Err(SwapError::SwapAborted));
}

#[test]
fn interrupted_offers_resume_with_their_inputs() {
    let mut swap = Swap::requested();
    let mut phase = OfferPhase::Begin;
    let mut reply = Reply::Done;
    loop {
        let args = swap.offer.as_ref().unwrap();
        let (next, action) = ark_offer(args, phase, reply, &mut swap.alice_state).unwrap();
        if matches!(action, Action::LockVtxos(_)) {
            break;
        }
        phase = next;
        reply = swap.world.perform(action, &mut swap.alice, &mut swap.alice_state).unwrap();
    }
    let secret = swap.alice_state().adaptor_secret_hex.clone();
    let inputs = swap.alice_state().ark_input_ids.clone();
    assert_eq!(inputs.len(), 1);
    assert!(swap.alice_state().relay.ark_transfer.is_none());
    swap.make_offer().unwrap();
    assert_eq!(swap.alice.trail, vec!["lock", "cosign", "change", "store", "publish"]);
    assert_eq!(swap.alice_state().adaptor_secret_hex, secret);
    assert_eq!(swap.alice_state().ark_input_ids, inputs);
    assert_eq!(swap.alice_state().relay.ark_transfer.as_ref().unwrap().offer.ark_input_ids, inputs);
}

#[test]
fn funding_refuses_changed_transcripts() {
    let refused = |change: fn(&mut Swap)| {
        let mut swap = Swap::offered();
        change(&mut swap);
        let error = swap.make_funding().err();
        assert!(error.is_none() || !swap.bob.trail.contains(&"broadcast"));
        error
    };
    assert_eq!(refused(|_| {}), None);
    assert_eq!(refused(|s| s.bob_state().status = SwapStatus::Refunded), Some(SwapError::AlreadySettled));
    assert_eq!(refused(|s| s.bob.relay.as_mut().unwrap().request.amount_sat += 1), Some(SwapError::RequestChanged));
    assert_eq!(refused(|s| s.bob.relay.as_mut().unwrap().swap_id = "09".repeat(32)), Some(SwapError::SwapMismatch));
    assert_eq!(refused(|s| s.bob.relay.as_mut().unwrap().terms = None), Some(SwapError::TermsMissing));
    assert_eq!(
        refused(|s| s.bob.relay.as_mut().unwrap().terms.as_mut().unwrap().amount_sat += 1),
        Some(SwapError::AmountDiffers)
    );
    assert_eq!(
        refused(|s| s.bob.relay.as_mut().unwrap().terms.as_mut().unwrap().btc_payout_script_hex = "51".to_owned()),
        Some(SwapError::PayoutMismatch)
    );
    assert_eq!(
        refused(|s| {
            let funding = s.bob.relay.as_mut().unwrap().btc_funding.as_mut().unwrap();
            let mut tx = tx_from_hex(&funding.funding_tx_hex).unwrap();
            tx.output[0].value -= 1;
            funding.funding_tx_hex = tx.to_hex();
        }),
        Some(SwapError::FundingChanged)
    );
    assert_eq!(
        refused(|s| s.bob.relay.as_mut().unwrap().btc_funding.as_mut().unwrap().funding_vout = 0),
        Some(SwapError::FundingContractMismatch)
    );
    assert_eq!(
        refused(|s| {
            let request = s.bob.relay.as_mut().unwrap().claim_request.as_mut().unwrap();
            let mut tx = tx_from_hex(&request.claim_tx_hex).unwrap();
            tx.output[0].value -= 1;
            request.claim_tx_hex = tx.to_hex();
        }),
        Some(SwapError::ClaimChanged)
    );
    assert_eq!(
        refused(|s| s.bob.relay.as_mut().unwrap().claim_request.as_mut().unwrap().claim_amount_sat += 1),
        Some(SwapError::ClaimContextChanged)
    );
    assert_eq!(
        refused(|s| s.bob.relay.as_mut().unwrap().ark_claim_partial.as_mut().unwrap().ark_partial_sig_hex = "01".repeat(32)),
        Some(SwapError::AdaptorMismatch)
    );
    assert_eq!(
        refused(|s| s.bob.relay.as_mut().unwrap().ark_transfer.as_mut().unwrap().transfer_package_hex = "00".to_owned()),
        Some(SwapError::TransferNotAccepted)
    );
    assert_eq!(
        refused(|s| s.bob.relay.as_mut().unwrap().ark_transfer.as_mut().unwrap().offer.amount_sat += 1),
        Some(SwapError::OfferMismatch)
    );
    assert_eq!(
        refused(|s| {
            let vtxo = ArkVtxo::deserialize(s.alice.vtxos[0].clone()).unwrap();
            let anchor = s.world.txs[&vtxo.chain_anchor().txid].0.clone();
            let exit = vtxo.valid_exits(&anchor).unwrap().remove(0).0;
            s.world.txs.insert(exit.txid(), (exit, None));
        }),
        Some(SwapError::ExitPublished)
    );
    assert_eq!(refused(|s| s.world.tip = 112), Some(SwapError::WindowTooShort));
    assert_eq!(refused(|s| s.bob_state().funding_psbt_hex = None), Some(SwapError::PsbtMissing));
    assert_eq!(refused(|s| s.bob_state().btc_secret_nonce = None), Some(SwapError::NonceConsumed));
    assert_eq!(refused(|s| s.bob.keys[0] = SecretKey::random()), Some(SwapError::ClaimKeyMismatch));
}

#[test]
fn pinned_responses_cannot_be_swapped() {
    let mut swap = Swap::offered();
    swap.bob_state().funding_psbt_hex = Some(String::new());
    assert_eq!(swap.make_funding(), Err(SwapError::InvalidPsbt));
    let pinned = swap.bob_state().peer_transcript_hash_hex.clone();
    assert!(pinned.is_some());
    swap.bob.relay.as_mut().unwrap().terms.as_mut().unwrap().amount_sat += 1;
    assert_eq!(swap.make_funding(), Err(SwapError::TranscriptChanged));
    assert_eq!(swap.bob_state().peer_transcript_hash_hex, pinned);
}

#[test]
fn signed_fundings_keep_the_committed_transaction() {
    let refused = |change: fn(&mut Transaction)| {
        let mut swap = Swap::offered();
        let context = FlowContext { network: NETWORK, fee_rate: None };
        let mut phase = FundPhase::Begin;
        let mut reply = Reply::Done;
        loop {
            let (next, action) = match btc_fund(context, phase, reply, swap.bob_state.as_mut().unwrap()) {
                Ok(step) => step,
                Err(error) => return Some(error),
            };
            if matches!(action, Action::End) {
                return None;
            }
            phase = next;
            reply = swap.world.perform(action, &mut swap.bob, &mut swap.bob_state).unwrap();
            if let Reply::Transaction(tx) = &mut reply {
                change(tx);
            }
        }
    };
    assert_eq!(refused(|_| {}), None);
    assert_eq!(refused(|tx| tx.output[0].value -= 1), Some(SwapError::FundingTxidChanged));
    assert_eq!(refused(|tx| tx.input[0].witness.clear()), Some(SwapError::FundingUnsigned));
}

#[test]
fn funding_again_only_publishes() {
    let mut swap = Swap::funded();
    let relay = swap.bob.relay.clone();
    swap.bob.relay = None;
    swap.make_funding().unwrap();
    assert_eq!(swap.bob.trail, vec!["publish"]);
    assert_eq!(swap.bob.relay, relay);
}

#[test]
fn funding_messages_must_match_the_offer() {
    let receive = |change: fn(&mut Swap)| {
        let mut swap = Swap::funded();
        change(&mut swap);
        match swap.world.run(SubFlow::ReceiveFunding, &mut swap.alice, swap.alice_state.as_mut().unwrap()) {
            Ok(Outcome::Answer(answer)) => Ok(answer),
            Ok(_) => unreachable!(),
            Err(error) => Err(error),
        }
    };
    assert_eq!(receive(|_| {}), Ok(true));
    assert_eq!(receive(|s| s.alice.relay.as_mut().unwrap().btc_claim_adaptor = None), Ok(false));
    assert_eq!(receive(|s| s.alice.relay.as_mut().unwrap().request.amount_sat += 1), Err(SwapError::TranscriptChanged));
    assert_eq!(receive(|s| s.alice.relay.as_mut().unwrap().swap_id = "09".repeat(32)), Err(SwapError::SwapMismatch));
    assert_eq!(receive(|s| s.alice_state().status = SwapStatus::Cancelled), Err(SwapError::SwapAborted));
    assert_eq!(receive(|s| s.alice_state().ark_recovery_input_ids = vec!["x".to_owned()]), Err(SwapError::SwapAborted));
    assert_eq!(
        receive(|s| {
            let funding = s.alice.relay.as_mut().unwrap().btc_funding.as_mut().unwrap();
            funding.funding_tx_hex = without_witness(&tx_from_hex(&funding.funding_tx_hex).unwrap()).to_hex();
        }),
        Err(SwapError::FundingUnsigned)
    );
    assert_eq!(
        receive(|s| s.alice.relay.as_mut().unwrap().btc_claim_adaptor.as_mut().unwrap().sighash_hex = "07".repeat(32)),
        Err(SwapError::AdaptorMismatch)
    );
    let foreign = btc_ark_swap::adaptor::build_cooperative_claim_adaptor_package(
        &SecretKey::random(), &SecretKey::random(), [7; 32], None, &SecretKey::random().public_key(),
    );
    let mut swap = Swap::funded();
    swap.alice.relay.as_mut().unwrap().btc_claim_adaptor =
        Some(btc_ark_swap::artifacts::BtcClaimAdaptorArtifact::from_package(&foreign.unwrap()));
    let refused = swap.world.run(SubFlow::ReceiveFunding, &mut swap.alice, swap.alice_state.as_mut().unwrap());
    assert_eq!(refused.err(), Some(SwapError::AdaptorContextMismatch));
}

#[test]
fn secrets_stay_hidden_outside_the_window() {
    let claim = |change: fn(&mut Swap)| {
        let mut swap = Swap::funded();
        assert_eq!(swap.alice_progress(), Ok("await-funding-confirmation"));
        swap.world.mine(6);
        change(&mut swap);
        let error = swap.world.run(SubFlow::ClaimBtc, &mut swap.alice, swap.alice_state.as_mut().unwrap()).err();
        assert_eq!(error.is_none(), swap.alice_state().signed_claim_tx_hex.is_some());
        error
    };
    assert_eq!(claim(|_| {}), None);
    assert_eq!(claim(|s| s.world.tip = 118), Some(SwapError::WindowTooShort));
    assert_eq!(claim(|s| s.world.tip = 105), Some(SwapError::FundingTooShallow));
    assert_eq!(
        claim(|s| {
            let funding = funding_tx(&s.alice_state().relay).unwrap();
            let spend = pay(&[OutPoint { txid: funding.txid(), vout: 1 }], vec![]);
            s.world.txs.insert(spend.txid(), (spend, None));
        }),
        Some(SwapError::FundingSpent)
    );
    assert_eq!(
        claim(|s| {
            let txid = funding_tx(&s.alice_state().relay).unwrap().txid();
            s.world.txs.get_mut(&txid).unwrap().1 = None;
        }),
        Some(SwapError::NotConfirmed)
    );
    assert_eq!(claim(|s| s.alice_state().adaptor_secret_hex = None), Some(SwapError::AdaptorSecretMissing));
    assert_eq!(claim(|s| s.alice_state().relay.btc_claim_adaptor = None), Some(SwapError::AdaptorMissing));
    assert_eq!(claim(|s| s.alice_state().status = SwapStatus::Cancelled), Some(SwapError::SwapAborted));
}

#[test]
fn tips_may_not_move_during_a_check() {
    let mut swap = Swap::funded();
    swap.alice_progress().unwrap();
    swap.world.mine(6);
    let state = swap.alice_state.as_ref().unwrap();
    let mut log = swap.world.gather(|log| check_claim_window(NETWORK, state, log));
    assert_eq!(check_claim_window(NETWORK, state, &log), CheckStep::Pass);
    let last = log.len() - 1;
    log[last].reply = ChainReply::Tip(block(107));
    assert_eq!(check_claim_window(NETWORK, state, &log), CheckStep::Fail(SwapError::TipChanged));
    log.truncate(last);
    assert_eq!(check_claim_window(NETWORK, state, &log), CheckStep::Need(ChainQuery::Tip));
}

#[test]
fn evicted_claims_are_paid_for_again() {
    let mut swap = Swap::claimed();
    let first = swap.alice_state().cpfp_tx_hex.clone().unwrap();
    let signed = swap.alice_state().signed_claim_tx_hex.clone();
    let claim = tx_from_hex(signed.as_ref().unwrap()).unwrap();
    let child = tx_from_hex(&first).unwrap();
    swap.world.txs.remove(&claim.txid());
    swap.world.txs.remove(&child.txid());
    swap.alice.fee_rate = Some(3);
    assert_eq!(swap.alice_progress(), Ok("await-claim-confirmation"));
    assert_eq!(swap.alice_state().signed_claim_tx_hex, signed);
    assert_ne!(swap.alice_state().cpfp_tx_hex, Some(first));
    assert_eq!(swap.world.status(&claim.txid()), TxStatus::Mempool);
    let bumped = swap.alice_state().cpfp_tx_hex.clone();
    swap.alice.fee_rate = Some(2);
    assert_eq!(swap.alice_progress(), Ok("await-claim-confirmation"));
    assert_eq!(swap.alice_state().cpfp_tx_hex, bumped);
    swap.alice.fee_rate = None;
    swap.world.fast = 601;
    assert_eq!(swap.alice_progress(), Ok("await-claim-confirmation"));
    assert_ne!(swap.alice_state().cpfp_tx_hex, bumped);
}

#[test]
fn claims_are_only_paid_for_once_signed() {
    let mut swap = Swap::funded();
    let pay_again = |swap: &mut Swap| {
        swap.world.run(SubFlow::BroadcastClaim, &mut swap.alice, swap.alice_state.as_mut().unwrap()).err()
    };
    assert_eq!(pay_again(&mut swap), Some(SwapError::SignedClaimMissing));
    let mut swap = Swap::claimed();
    let child = tx_from_hex(swap.alice_state().cpfp_tx_hex.as_ref().unwrap()).unwrap();
    swap.world.txs.remove(&child.txid());
    swap.alice_state().relay.request.amount_sat = 1;
    assert_eq!(pay_again(&mut swap), Some(SwapError::InvalidClaimFee));
}

#[test]
fn revealed_secrets_forbid_an_abort() {
    let mut swap = Swap::claimed();
    let claim = tx_from_hex(swap.alice_state().signed_claim_tx_hex.as_ref().unwrap()).unwrap();
    swap.world.txs.remove(&claim.txid());
    let abort = |swap: &mut Swap| {
        swap.world.run(SubFlow::AbortArk, &mut swap.alice, swap.alice_state.as_mut().unwrap()).err()
    };
    assert_eq!(abort(&mut swap), Some(SwapError::SecretMayBePublic));
    let mut swap = Swap::offered();
    let request = swap.alice_state().relay.claim_request.as_ref().unwrap().claim_tx_hex.clone();
    let claim = tx_from_hex(&request).unwrap();
    swap.world.txs.insert(claim.txid(), (claim, None));
    assert_eq!(abort(&mut swap), Some(SwapError::ClaimVisible));
}

#[test]
fn aborted_swaps_never_reveal() {
    let mut swap = Swap::funded();
    swap.alice.trail.clear();
    let outcome = swap.world.run(SubFlow::AbortArk, &mut swap.alice, swap.alice_state.as_mut().unwrap());
    assert!(outcome.is_ok());
    assert_eq!(swap.alice.trail, vec!["store", "exit"]);
    assert_eq!(swap.alice_state().status, SwapStatus::Cancelled);
    let stored = swap.alice_state.as_ref().unwrap();
    assert_eq!(stored.ark_recovery_input_ids, stored.ark_input_ids);
    swap.world.mine(6);
    for flow in [SubFlow::ReceiveFunding, SubFlow::ClaimBtc] {
        let refused = swap.world.run(flow, &mut swap.alice, swap.alice_state.as_mut().unwrap()).err();
        assert_eq!(refused, Some(SwapError::SwapAborted));
    }
    assert!(swap.alice_state().signed_claim_tx_hex.is_none());
    assert_eq!(swap.make_offer(), Err(SwapError::SwapAborted));
}

#[test]
fn late_swaps_recover_their_inputs() {
    let mut swap = Swap::offered();
    assert_eq!(swap.alice_progress(), Ok("await-btc-funding"));
    swap.world.mine(18);
    assert_eq!(swap.alice_progress(), Ok("await-ark-exit"));
    assert_eq!(swap.alice_state().status, SwapStatus::Cancelled);
    assert_eq!(swap.alice.trail, vec!["store", "exit", "exit", "child", "provide", "child", "provide"]);
    assert_eq!(swap.alice.exits.len(), 1);

    // The exits mature on the chain.
    let vtxo = ArkVtxo::deserialize(swap.alice.vtxos[0].clone()).unwrap();
    let anchor = swap.world.txs[&vtxo.chain_anchor().txid].0.clone();
    for (exit, _) in vtxo.valid_exits(&anchor).unwrap() {
        swap.world.confirm(&exit, 119);
    }
    swap.world.claimable = true;
    assert_eq!(swap.alice_progress(), Ok("await-ark-reclaim-confirmation"));
    assert!(at(&swap.alice.trail, "store") < at(&swap.alice.trail, "broadcast"));
    let first = swap.alice_state().ark_exit_claim_tx_hex.clone().unwrap();

    // The same target only waits, a higher one replaces.
    assert_eq!(swap.alice_progress(), Ok("await-ark-reclaim-confirmation"));
    assert_eq!(swap.alice_state().ark_exit_claim_tx_hex, Some(first.clone()));
    swap.alice.fee_rate = Some(5);
    assert_eq!(swap.alice_progress(), Ok("await-ark-reclaim-confirmation"));
    let second = swap.alice_state().ark_exit_claim_tx_hex.clone().unwrap();
    let (old, new) = (tx_from_hex(&first).unwrap(), tx_from_hex(&second).unwrap());
    assert!(new.output[0].value < old.output[0].value);
    assert_eq!(new.input[0].previous_output, old.input[0].previous_output);
    assert_eq!(swap.alice_state().previous_ark_exit_claim_txids, vec![old.txid()]);

    // The older one confirms.
    swap.world.txs.remove(&new.txid());
    swap.world.mine(1);
    assert_eq!(swap.alice_progress(), Ok("await-ark-reclaim-confirmation"));
    assert_eq!(swap.alice_state().ark_exit_claim_tx_hex, Some(first));
    swap.world.mine(5);
    assert_eq!(swap.alice_progress(), Ok("done"));
    assert_eq!(swap.alice_state().status, SwapStatus::ArkReclaimed);
}

#[test]
fn reclaims_keep_to_the_frozen_inputs() {
    let recover = |change: fn(&mut Swap)| {
        let mut swap = Swap::offered();
        swap.world.mine(18);
        swap.alice_progress().unwrap();
        let vtxo = ArkVtxo::deserialize(swap.alice.vtxos[0].clone()).unwrap();
        let anchor = swap.world.txs[&vtxo.chain_anchor().txid].0.clone();
        for (exit, _) in vtxo.valid_exits(&anchor).unwrap() {
            swap.world.confirm(&exit, 119);
        }
        swap.world.claimable = true;
        swap.alice_progress().unwrap();
        swap.alice.fee_rate = Some(9);
        change(&mut swap);
        swap.alice_progress().err()
    };
    assert_eq!(recover(|_| {}), None);
    assert_eq!(recover(|s| s.alice_state().ark_recovery_input_ids.clear()), Some(SwapError::RecoveryInputsMissing));
    assert_eq!(
        recover(|s| s.alice_state().ark_recovery_input_ids.push("x".to_owned())),
        Some(SwapError::InvalidVtxoId)
    );
    assert_eq!(
        recover(|s| {
            let id = [&"0c".repeat(32), ":0"].concat();
            s.alice_state().ark_recovery_input_ids.push(id);
        }),
        Some(SwapError::ReclaimIncomplete)
    );
    assert_eq!(
        recover(|s| {
            let id = [&"0c".repeat(32), ":0"].concat();
            s.alice_state().ark_recovery_input_ids = vec![id];
        }),
        Some(SwapError::ReclaimForeignInput)
    );
    assert_eq!(recover(|s| s.alice.fee_rate = Some(4_000)), Some(SwapError::ReclaimFeeExceedsOutput));
    assert_eq!(
        recover(|s| {
            let mut tx = tx_from_hex(s.alice_state().ark_exit_claim_tx_hex.as_ref().unwrap()).unwrap();
            tx.output.push(TxOut { value: 1, script_pubkey: vec![] });
            s.alice_state().ark_exit_claim_tx_hex = Some(tx.to_hex());
        }),
        Some(SwapError::ReclaimOutputCount)
    );
    assert_eq!(
        recover(|s| {
            let tx = tx_from_hex(s.alice_state().ark_exit_claim_tx_hex.as_ref().unwrap()).unwrap();
            let weight = tx.weight_units();
            s.alice.fee_rate = Some((100_000 - 300) * 4 / weight);
        }),
        Some(SwapError::ReclaimDust)
    );
    assert_eq!(
        recover(|s| {
            let tx = tx_from_hex(s.alice_state().ark_exit_claim_tx_hex.as_ref().unwrap()).unwrap();
            s.world.confirm(&tx, 119);
            s.alice_state().previous_ark_exit_claim_txids = vec![tx.txid()];
            let mut other = tx.clone();
            other.output[0].value -= 1;
            s.alice_state().ark_exit_claim_tx_hex = Some(other.to_hex());
            s.world.broken_index = Some(tx.txid());
        }),
        Some(SwapError::ReclaimDisappeared)
    );
}

#[test]
fn failed_registrations_recover_on_the_chain() {
    let mut swap = Swap::claimed();
    swap.world.registers = false;
    swap.bob.fee_rate = None;
    assert_eq!(swap.bob_progress(), Ok("await-ark-exit"));
    assert_eq!(swap.bob_state().status, SwapStatus::ArkRecovering);
    let received = swap.bob.imported[0].to_string();
    assert_eq!(swap.bob_state().ark_recovery_input_ids, vec![received]);
    assert!(at(&swap.bob.trail, "import") < at(&swap.bob.trail, "exit"));
    assert_eq!(swap.bob_progress(), Ok("await-ark-exit"));
    let refused = swap.world.run(SubFlow::RefundBtc, &mut swap.bob, swap.bob_state.as_mut().unwrap()).err();
    assert_eq!(refused, Some(SwapError::ArkAlreadyReceived));
    let refused = swap.world.run(SubFlow::ClaimBtc, &mut swap.alice, swap.alice_state.as_mut().unwrap()).err();
    assert_eq!(refused, Some(SwapError::RegistrationFailed));
}

#[test]
fn refunds_wait_for_their_height() {
    let mut swap = Swap::funded();
    swap.world.mine(6);
    let refund = |swap: &mut Swap| {
        swap.world.run(SubFlow::RefundBtc, &mut swap.bob, swap.bob_state.as_mut().unwrap()).err()
    };
    assert_eq!(refund(&mut swap), Some(SwapError::RefundImmature));
    swap.world.tip = 123;
    assert_eq!(refund(&mut swap), Some(SwapError::RefundImmature));
    swap.world.tip = 124;
    assert_eq!(swap.bob_progress(), Ok("await-refund-confirmation"));
    let refund_tx = tx_from_hex(swap.bob_state().signed_refund_tx_hex.as_ref().unwrap()).unwrap();
    assert_eq!(refund_tx.lock_time, 124);
    assert_eq!(swap.world.status(&refund_tx.txid()), TxStatus::Mempool);
    swap.world.mine(6);
    assert_eq!(swap.bob_progress(), Ok("done"));
    assert_eq!(swap.bob_state().status, SwapStatus::Refunded);
}

#[test]
fn refunds_are_repriced_and_older_ones_recognized() {
    let mut swap = Swap::funded();
    swap.world.mine(6);
    swap.world.tip = 124;
    swap.bob.fee_rate = Some(1);
    let first = swap.bob_state().signed_refund_tx_hex.clone().unwrap();
    assert_eq!(swap.bob_progress(), Ok("await-refund-confirmation"));
    assert_eq!(swap.bob_state().signed_refund_tx_hex, Some(first.clone()));
    swap.bob.fee_rate = Some(10);
    assert_eq!(swap.bob_progress(), Ok("await-refund-confirmation"));
    let second = swap.bob_state().signed_refund_tx_hex.clone().unwrap();
    let (old, new) = (tx_from_hex(&first).unwrap(), tx_from_hex(&second).unwrap());
    assert_eq!(new.lock_time, 124);
    assert_eq!(new.input[0].previous_output, old.input[0].previous_output);
    assert_eq!(new.output[0].script_pubkey, old.output[0].script_pubkey);
    let fee = 80_000 - new.output[0].value;
    assert_eq!(fee, (new.weight_units() * 2_500).div_ceil(1_000));
    assert_eq!(swap.bob_state().previous_refund_txids, vec![old.txid()]);

    swap.world.txs.remove(&new.txid());
    swap.world.mine(6);
    swap.world.broken_index = Some(old.txid());
    assert_eq!(swap.bob_progress(), Err(SwapError::RefundDisappeared));
    swap.world.broken_index = None;
    assert_eq!(swap.bob_progress(), Ok("done"));
    assert_eq!(swap.bob_state().signed_refund_tx_hex, Some(first));
}

#[test]
fn refunds_refuse_what_they_cannot_price() {
    let refund = |change: fn(&mut Swap)| {
        let mut swap = Swap::funded();
        swap.world.mine(6);
        swap.world.tip = 124;
        change(&mut swap);
        swap.world.run(SubFlow::RefundBtc, &mut swap.bob, swap.bob_state.as_mut().unwrap()).err()
    };
    assert_eq!(refund(|_| {}), None);
    assert_eq!(refund(|s| s.bob_state().signed_refund_tx_hex = None), Some(SwapError::RefundMissing));
    assert_eq!(refund(|s| s.bob.fee_rate = Some(0)), Some(SwapError::FeeRateZero));
    assert_eq!(refund(|s| s.bob.fee_rate = Some(1_000)), Some(SwapError::RefundFeeExceedsAmount));
    assert_eq!(refund(|s| s.bob_state().relay.claim_request = None), Some(SwapError::ClaimRequestMissing));
    assert_eq!(
        refund(|s| {
            let mut tx = tx_from_hex(s.bob_state().signed_refund_tx_hex.as_ref().unwrap()).unwrap();
            tx.output[0].value = 80_001;
            s.bob_state().signed_refund_tx_hex = Some(tx.to_hex());
        }),
        Some(SwapError::InvalidRefundFee)
    );
    assert_eq!(
        refund(|s| {
            let mut tx = tx_from_hex(s.bob_state().signed_refund_tx_hex.as_ref().unwrap()).unwrap();
            let weight = tx.weight_units();
            tx.output[0].value = 79_000;
            s.bob_state().signed_refund_tx_hex = Some(tx.to_hex());
            s.bob.fee_rate = Some(79_800 * 4 / weight);
        }),
        Some(SwapError::RefundOutputNonStandard)
    );
    assert_eq!(
        refund(|s| {
            s.bob.fee_rate = None;
            s.world.fast = u64::MAX;
        }),
        Some(SwapError::FeeOverflow)
    );
    let mut swap = Swap::claimed();
    let refused = swap.world.run(SubFlow::RefundBtc, &mut swap.bob, swap.bob_state.as_mut().unwrap()).err();
    assert_eq!(refused, Some(SwapError::ClaimVisible));
}

#[test]
fn unconfirmed_fundings_are_refunded_together() {
    let mut swap = Swap::funded();
    swap.world.tip = 124;
    let funding = funding_tx(&swap.bob_state().relay).unwrap();
    swap.world.txs.remove(&funding.txid());
    assert_eq!(swap.bob_progress(), Ok("await-refund-confirmation"));
    assert_eq!(swap.bob_state().funding_conflict_scan_tip, Some(block(124)));
    assert_eq!(swap.world.status(&funding.txid()), TxStatus::Mempool);
    swap.world.mine(6);
    assert_eq!(swap.bob_progress(), Ok("done"));
    assert_eq!(swap.bob_state().status, SwapStatus::Refunded);
}

#[test]
fn conflicting_fundings_cancel_the_swap() {
    let mut swap = Swap::funded();
    let funding = funding_tx(&swap.bob_state().relay).unwrap();
    swap.world.txs.remove(&funding.txid());
    let conflict = pay(&[funding.input[0].previous_output], vec![]);
    swap.world.confirm(&conflict, 120);
    swap.world.tip = 124;
    assert_eq!(swap.bob_progress(), Ok("await-refund-confirmation"));
    assert_ne!(swap.bob_state().status, SwapStatus::Cancelled);
    swap.world.txs.remove(&funding.txid());
    swap.world.tip = 125;
    assert_eq!(swap.bob_progress(), Ok("done"));
    assert_eq!(swap.bob_state().status, SwapStatus::Cancelled);
}

#[test]
fn progress_needs_the_transaction_index() {
    let mut swap = Swap::funded();
    swap.world.indexed = false;
    assert!(swap.bob_progress().is_err());
    swap.world.indexed = true;
    let funding = funding_tx(&swap.bob_state().relay).unwrap();
    swap.world.txs.remove(&funding.txid());
    assert_eq!(swap.bob_progress(), Ok("await-btc-claim"));
    assert_eq!(swap.world.status(&funding.txid()), TxStatus::Mempool);
    let mut swap = Swap::offered();
    assert_eq!(swap.bob_progress(), Ok("btc-fund"));
}

#[test]
fn exits_are_paid_unless_the_target_is_too_low() {
    assert_eq!(exit_fees(None, 7), Some(CpfpFees::Effective(7)));
    assert_eq!(exit_fees(Some((7, 100)), 7), None);
    assert_eq!(
        exit_fees(Some((6, 100)), 7),
        Some(CpfpFees::Rbf { min_effective_fee_rate: 7, current_package_fee: 100 })
    );
}

#[test]
fn transfers_do_not_pay_their_own_change() {
    let mut swap = Swap::new();
    let server = swap.world.server.public_key();
    let plan = TransferPlan {
        destination: ark_address(&server, &swap.alice.receive.public_key()),
        amount: 1_000,
        payout: vec![],
        point: SecretKey::random().public_key(),
        inputs: vec![],
    };
    let mut phase = PreparePhase::Begin;
    let mut reply = Reply::Done;
    let error = loop {
        match prepare_btc_ark_transfer(&plan, phase, reply) {
            Ok((next, action)) => {
                phase = next;
                reply = swap.world.perform(action, &mut swap.alice, &mut None).unwrap();
            }
            Err(error) => break error,
        }
    };
    assert_eq!(error, SwapError::TransferToChange);
}

#[test]
fn unexpected_replies_change_nothing() {
    let mut swap = Swap::offered();
    let context = FlowContext { network: NETWORK, fee_rate: None };
    let before = swap.bob_state().relay.clone();
    let state = swap.bob_state.as_mut().unwrap();
    assert_eq!(btc_fund(context, FundPhase::Begin, Reply::Tip(1), state).err(), Some(SwapError::UnexpectedReply));
    assert_eq!(claim_btc(context, ClaimPhase::Depth, Reply::Done, state).err(), Some(SwapError::UnexpectedReply));
    assert_eq!(refund_btc(context, RefundPhase::Funding, Reply::Done, state).err(), Some(SwapError::UnexpectedReply));
    assert_eq!(abort_ark(AbortPhase::Fetched, Reply::Done, state).err(), Some(SwapError::UnexpectedReply));
    assert_eq!(progress_swap(ProgressPhase::BtcTip, Reply::Done, state).err(), Some(SwapError::UnexpectedReply));
    assert_eq!(
        progress_ark_recovery(context, RecoverPhase::Stored, Reply::Done, state).err(),
        Some(SwapError::ReclaimMissing)
    );
    assert_eq!(state.role, SwapRole::BtcPayer);
    assert_eq!(state.status, SwapStatus::Requested);
    assert_eq!(state.relay, before);
}
