//! Checks against the live chain.

use std::collections::HashMap;

use ark::arkoor::package::ArkoorPackageBuilder;
use ark::arkoor::ArkoorDestination;
use ark::test_util::dummy::DummyTestVtxoSpec;
use ark::ProtocolEncoding as _;
use bitcoin::secp256k1::Keypair;
use bitcoin::Amount;
use btc_ark_swap::address::Network;
use btc_ark_swap::ark_types::{ArkVtxo, VtxoPolicy};
use btc_ark_swap::artifacts::BtcArkRequestArtifact;
use btc_ark_swap::chain::{BlockRef, ChainAnswer, ChainQuery, ChainReply, CheckStep, TxStatus};
use btc_ark_swap::error::SwapError;
use btc_ark_swap::flow::{estimated_fee, has_confirmations, target_fee, Target};
use btc_ark_swap::keys::{PublicKey, SecretKey};
use btc_ark_swap::live::{verify_live_ark_inputs, verify_live_ark_transfer};
use btc_ark_swap::lock::BtcLockContract;
use btc_ark_swap::musig::nonce_pair;
use btc_ark_swap::offer::{ArkOffer, ArkTransfer};
use btc_ark_swap::relay::RelayFile;
use btc_ark_swap::response::{funding_template, validate_request};
use btc_ark_swap::swap_id::SwapId;
use btc_ark_swap::tx::{tx_from_hex, OutPoint, Transaction, TxIn, TxOut};
use btc_ark_swap::txfee::transaction_fee;
use btc_ark_swap::validation::{verify_claim_window, verify_funding_inputs, verify_refund_window};

fn keypair_of(secret: &SecretKey) -> Keypair {
    Keypair::from_seckey_slice(&ark::SECP, &secret.secret_bytes()).unwrap()
}

fn block(height: u32) -> BlockRef {
    BlockRef { height, hash: [height as u8; 32] }
}

fn taproot(byte: u8) -> Vec<u8> {
    [vec![0x51, 0x20], vec![byte; 32]].concat()
}

fn pay(points: &[OutPoint], outputs: Vec<TxOut>) -> Transaction {
    let input = points
        .iter()
        .map(|point| TxIn { previous_output: *point, script_sig: vec![], sequence: 0, witness: vec![] })
        .collect();
    Transaction { version: 2, lock_time: 0, input, output: outputs }
}

struct Chain {
    tip: u32,
    txs: HashMap<[u8; 32], (Transaction, TxStatus)>,
    reorganized: bool,
}

impl Chain {
    fn new() -> Chain {
        Chain { tip: 100, txs: HashMap::new(), reorganized: false }
    }

    fn confirm(&mut self, tx: &Transaction, height: u32) -> OutPoint {
        self.txs.insert(tx.txid(), (tx.clone(), TxStatus::Confirmed(block(height))));
        OutPoint { txid: tx.txid(), vout: 0 }
    }

    fn answer(&self, query: ChainQuery) -> ChainAnswer {
        let reply = match query {
            ChainQuery::Tip => ChainReply::Tip(block(self.tip)),
            ChainQuery::TxStatus(txid) => {
                ChainReply::TxStatus(self.txs.get(&txid).map_or(TxStatus::NotFound, |(_, status)| *status))
            }
            ChainQuery::Block(height) => ChainReply::Block(block(height + u32::from(self.reorganized))),
            ChainQuery::Tx(txid) => ChainReply::Tx(self.txs.get(&txid).map(|(tx, _)| tx.clone())),
            ChainQuery::Unspent(point) => {
                let spent = self.txs.values().any(|(tx, _)| tx.input.iter().any(|i| i.previous_output == point));
                let output = self.txs.get(&point.txid).and_then(|(tx, _)| tx.output.get(point.vout as usize));
                ChainReply::Unspent(if spent { None } else { output.cloned() })
            }
        };
        ChainAnswer { query, reply }
    }

    fn settle(&self, check: impl Fn(&Vec<ChainAnswer>) -> CheckStep) -> CheckStep {
        let mut log = vec![];
        loop {
            match check(&log) {
                CheckStep::Need(query) => log.push(self.answer(query)),
                step => return step,
            }
        }
    }
}

fn coin(chain: &mut Chain, byte: u8, height: u32) -> (OutPoint, TxOut) {
    let output = TxOut { value: 50_000, script_pubkey: taproot(byte) };
    let tx = pay(&[OutPoint { txid: [byte; 32], vout: 0 }], vec![output.clone()]);
    (chain.confirm(&tx, height), output)
}

#[test]
fn refund_windows_leave_the_margin() {
    assert_eq!(verify_refund_window(100, 107, 6), Ok(()));
    assert_eq!(verify_refund_window(100, 106, 6), Err(SwapError::WindowTooShort));
    assert_eq!(verify_refund_window(100, 107, 0), Err(SwapError::MarginZero));
    assert_eq!(verify_refund_window(100, 500_000_000, 6), Err(SwapError::InvalidRefundHeight));
    assert_eq!(verify_refund_window(u32::MAX, 107, 1), Err(SwapError::HeightOverflow));
}

#[test]
fn funding_inputs_are_live_native_segwit_coins() {
    let mut chain = Chain::new();
    let (first, output) = coin(&mut chain, 1, 60);
    let (second, other) = coin(&mut chain, 2, 70);
    let tx = pay(&[first, second], vec![]);
    let prevouts = vec![output.clone(), other.clone()];
    let check = |chain: &Chain, tx: &Transaction, prevouts: &Vec<TxOut>| {
        chain.settle(|log| verify_funding_inputs(log, 0, tx, prevouts))
    };
    assert_eq!(check(&chain, &tx, &prevouts), CheckStep::Pass);
    let fails = |error| CheckStep::Fail(error);
    assert_eq!(check(&chain, &tx, &vec![output.clone()]), fails(SwapError::FundingPrevoutCount));
    assert_eq!(check(&chain, &pay(&[], vec![]), &vec![]), fails(SwapError::FundingPrevoutCount));
    let twice = pay(&[first, first], vec![]);
    assert_eq!(check(&chain, &twice, &vec![output.clone(), output.clone()]), fails(SwapError::DuplicateFundingInput));
    let mut signed = tx.clone();
    signed.input[1].script_sig.push(0x51);
    assert_eq!(check(&chain, &signed, &prevouts), fails(SwapError::FundingScriptSig));
    let legacy = TxOut { value: 1, script_pubkey: vec![0x51] };
    assert_eq!(check(&chain, &tx, &vec![output.clone(), legacy]), fails(SwapError::FundingNotSegwit));
    let wrong = TxOut { value: 50_001, ..other.clone() };
    assert_eq!(check(&chain, &tx, &vec![output.clone(), wrong]), fails(SwapError::FundingPrevoutMismatch));
    let missing = pay(&[first, OutPoint { txid: [9; 32], vout: 0 }], vec![]);
    assert_eq!(check(&chain, &missing, &prevouts), fails(SwapError::NotConfirmed));
    chain.tip = 65;
    assert_eq!(check(&chain, &tx, &prevouts), fails(SwapError::NotInCurrentChain));
    chain.tip = 100;
    chain.reorganized = true;
    assert_eq!(check(&chain, &tx, &prevouts), fails(SwapError::NotInCurrentChain));
    chain.reorganized = false;
    chain.confirm(&pay(&[second], vec![]), 80);
    assert_eq!(check(&chain, &tx, &prevouts), fails(SwapError::FundingInputSpent));
}

#[test]
fn two_outputs_of_one_transaction_are_both_asked_for() {
    let mut chain = Chain::new();
    let output = TxOut { value: 50_000, script_pubkey: taproot(1) };
    let tx = pay(&[OutPoint { txid: [1; 32], vout: 0 }], vec![output.clone(), output.clone()]);
    let first = chain.confirm(&tx, 60);
    let second = OutPoint { vout: 1, ..first };
    let spend = pay(&[first, second], vec![]);
    let prevouts = vec![output.clone(), output];
    let step = chain.settle(|log| verify_funding_inputs(log, 0, &spend, &prevouts));
    assert_eq!(step, CheckStep::Pass);
    chain.confirm(&pay(&[second], vec![]), 61);
    let step = chain.settle(|log| verify_funding_inputs(log, 0, &spend, &prevouts));
    assert_eq!(step, CheckStep::Fail(SwapError::FundingInputSpent));
}

fn request(chain: &mut Chain) -> BtcArkRequestArtifact {
    let secret = SecretKey::random();
    let (point, output) = coin(chain, 1, 60);
    let template = pay(&[point], vec![TxOut { value: 40_000, script_pubkey: taproot(9) }]);
    BtcArkRequestArtifact {
        amount_sat: 40_000,
        ark_receive: String::new(),
        btc_payer_claim_pubkey: secret.public_key().to_string(),
        btc_refund_pubkey: secret.public_key().x_only_public_key().to_string(),
        fee_rate_sat_vb: 1,
        created_height: 100,
        refund_height: 124,
        minimum_funding_confirmations: 6,
        safety_margin_blocks: 6,
        funding_template_hex: template.to_hex(),
        funding_output_index: 0,
        funding_prevouts_hex: vec![output.to_hex()],
        btc_payer_public_nonce_hex: nonce_pair(&secret).1.to_hex(),
    }
}

#[test]
fn requests_are_checked_in_order() {
    let step_of = |change: fn(&mut BtcArkRequestArtifact)| {
        let mut chain = Chain::new();
        let mut request = request(&mut chain);
        change(&mut request);
        chain.settle(|log| validate_request(log, &request))
    };
    assert_eq!(step_of(|_| {}), CheckStep::Pass);
    let refused: &[(fn(&mut BtcArkRequestArtifact), SwapError)] = &[
        (|r| r.amount_sat = 0, SwapError::InvalidSafetyParameters),
        (|r| r.minimum_funding_confirmations = 0, SwapError::InvalidSafetyParameters),
        (|r| r.safety_margin_blocks = 0, SwapError::InvalidSafetyParameters),
        (|r| r.safety_margin_blocks = 5, SwapError::MarginBelowConfirmations),
        (|r| r.created_height = 101, SwapError::InvalidRequestHeight),
        (|r| r.refund_height = 500_000_000, SwapError::InvalidRequestHeight),
        (|r| r.safety_margin_blocks = u32::MAX, SwapError::HeightOverflow),
        (|r| r.refund_height = 112, SwapError::WindowTooShort),
        (|r| r.funding_template_hex = String::new(), SwapError::InvalidTransaction),
        (|r| r.funding_prevouts_hex[0].push('0'), SwapError::InvalidOutput),
        (|r| r.funding_prevouts_hex.clear(), SwapError::FundingPrevoutCount),
        (|r| r.funding_output_index = 1, SwapError::TemplateSlot),
        (|r| r.amount_sat = 39_999, SwapError::TemplatePlaceholder),
        (|r| r.fee_rate_sat_vb = 0, SwapError::FeeRateZero),
        (|r| r.fee_rate_sat_vb = 1 << 32, SwapError::FeeRateTooLarge),
        (|r| r.btc_payer_claim_pubkey.push('0'), SwapError::InvalidPublicKey),
        (|r| r.btc_refund_pubkey.push('0'), SwapError::InvalidPublicKey),
        (|r| r.btc_payer_public_nonce_hex = "00".to_owned(), SwapError::InvalidPublicNonce),
    ];
    for (change, error) in refused {
        assert_eq!(step_of(*change), CheckStep::Fail(*error));
    }
}

#[test]
fn templates_are_unsigned_and_pay_a_fee() {
    let refused = |change: fn(&mut Transaction)| {
        let mut chain = Chain::new();
        let mut request = request(&mut chain);
        let mut tx = tx_from_hex(&request.funding_template_hex).unwrap();
        change(&mut tx);
        request.funding_template_hex = tx.to_hex();
        funding_template(&request).err()
    };
    assert_eq!(refused(|_| {}), None);
    assert_eq!(refused(|tx| tx.lock_time = 100), None);
    assert_eq!(refused(|tx| tx.lock_time = 101), Some(SwapError::TemplateTimelocked));
    assert_eq!(refused(|tx| tx.lock_time = 500_000_000), Some(SwapError::TemplateTimelocked));
    assert_eq!(refused(|tx| tx.input[0].witness.push(vec![1])), Some(SwapError::TemplateSigned));
    assert_eq!(refused(|tx| tx.input[0].script_sig.push(1)), Some(SwapError::TemplateSigned));
    assert_eq!(refused(|tx| tx.output[0].script_pubkey.push(1)), Some(SwapError::TemplatePlaceholder));
    assert_eq!(
        refused(|tx| tx.output.push(TxOut { value: 10_000, script_pubkey: vec![] })),
        Some(SwapError::TemplateFeeMissing)
    );
    assert_eq!(
        refused(|tx| tx.output.push(TxOut { value: u64::MAX, script_pubkey: vec![] })),
        Some(SwapError::AmountOverflow)
    );
}

struct Ark {
    chain: Chain,
    user: SecretKey,
    server: SecretKey,
    anchor: Transaction,
    vtxo: Vec<u8>,
}

fn ark_input(expiry: u32, delta: u16) -> Ark {
    let mut chain = Chain::new();
    let (user, server) = (SecretKey::random(), SecretKey::random());
    let spec = DummyTestVtxoSpec {
        amount: Amount::from_sat(10_000),
        fee: Amount::ZERO,
        expiry_height: expiry.into(),
        exit_delta: delta.into(),
        user_keypair: keypair_of(&user),
        server_keypair: keypair_of(&server),
    };
    let (funding, vtxo) = spec.build();
    let anchor = tx_from_hex(&bitcoin::consensus::encode::serialize_hex(&funding)).unwrap();
    chain.confirm(&anchor, 50);
    Ark { chain, user, server, anchor, vtxo: vtxo.serialize() }
}

fn live(ark: &Ark, inputs: &[&Vec<u8>], refund_height: u32) -> CheckStep {
    let inputs: Vec<ArkVtxo> = inputs.iter().map(|bytes| ArkVtxo::deserialize((*bytes).clone()).unwrap()).collect();
    ark.chain.settle(|log| verify_live_ark_inputs(log, &inputs, refund_height, 6))
}

#[test]
fn ark_inputs_outlive_the_refund() {
    let fails = |error| CheckStep::Fail(error);
    let ark = ark_input(1_000, 144);
    assert_eq!(live(&ark, &[&ark.vtxo], 124), CheckStep::Pass);
    assert_eq!(live(&ark, &[&ark.vtxo], 237), CheckStep::Pass);
    assert_eq!(live(&ark, &[&ark.vtxo], 238), fails(SwapError::ArkExitTooSoon));
    assert_eq!(live(&ark, &[&ark.vtxo], 106), fails(SwapError::WindowTooShort));
    assert_eq!(live(&ark, &[], 124), fails(SwapError::NoArkInputs));
    assert_eq!(live(&ark, &[&ark.vtxo, &ark.vtxo], 124), fails(SwapError::DuplicateArkInput));
    let short = ark_input(131, 144);
    assert_eq!(live(&short, &[&short.vtxo], 124), CheckStep::Pass);
    assert_eq!(live(&short, &[&short.vtxo], 125), fails(SwapError::ArkInputExpires));
}

#[test]
fn ark_inputs_have_a_live_anchor_and_no_published_exit() {
    let fails = |error| CheckStep::Fail(error);
    let mut ark = ark_input(1_000, 144);
    let vtxo = ArkVtxo::deserialize(ark.vtxo.clone()).unwrap();
    let exit = vtxo.valid_exits(&ark.anchor).unwrap().remove(0).0;
    ark.chain.txs.insert(exit.txid(), (exit.clone(), TxStatus::Mempool));
    assert_eq!(live(&ark, &[&ark.vtxo], 124), fails(SwapError::ExitPublished));
    ark.chain.txs.remove(&exit.txid());
    let spend = pay(&[vtxo.chain_anchor()], vec![]);
    ark.chain.confirm(&spend, 60);
    assert_eq!(live(&ark, &[&ark.vtxo], 124), fails(SwapError::AnchorSpent));
    ark.chain.txs.remove(&spend.txid());
    ark.chain.txs.insert(ark.anchor.txid(), (ark.anchor.clone(), TxStatus::Mempool));
    assert_eq!(live(&ark, &[&ark.vtxo], 124), fails(SwapError::NotConfirmed));
    let mut other = ark.anchor.clone();
    other.output[0].value += 1;
    ark.chain.txs.insert(ark.anchor.txid(), (other, TxStatus::Confirmed(block(50))));
    assert_eq!(live(&ark, &[&ark.vtxo], 124), fails(SwapError::AnchorMismatch));
}

#[test]
fn anchors_answer_for_themselves() {
    let ark = ark_input(1_000, 144);
    let inputs = vec![ArkVtxo::deserialize(ark.vtxo.clone()).unwrap()];
    let anchor = inputs[0].chain_anchor();
    let step = |change: fn(&mut ChainAnswer)| {
        let mut log = vec![];
        loop {
            match verify_live_ark_inputs(&log, &inputs, 124, 6) {
                CheckStep::Need(query) => {
                    let mut answer = ark.chain.answer(query);
                    change(&mut answer);
                    log.push(answer);
                }
                step => return step,
            }
        }
    };
    assert_eq!(step(|_| {}), CheckStep::Pass);
    assert_eq!(
        step(|answer| if matches!(answer.reply, ChainReply::Tx(_)) { answer.reply = ChainReply::Tx(None) }),
        CheckStep::Fail(SwapError::AnchorUnknown)
    );
    assert_eq!(
        step(|answer| if let ChainReply::Unspent(Some(output)) = &mut answer.reply { output.value += 1 }),
        CheckStep::Fail(SwapError::AnchorOutputMismatch)
    );
    assert_eq!(
        step(|answer| answer.query = ChainQuery::Block(1)),
        CheckStep::Fail(SwapError::UnexpectedReply)
    );
    assert_eq!(anchor.vout, 0);
}

#[test]
fn transfers_spend_the_inputs_of_their_offer() {
    let ark = ark_input(1_000, 144);
    let input = || ArkVtxo::deserialize(ark.vtxo.clone()).unwrap();
    let offer = |server: PublicKey| ArkOffer {
        id: SwapId::random(),
        amount: 10_000,
        btc_payout_script: vec![],
        ark_input_ids: vec![input().id()],
        ark_receive_policy: VtxoPolicy::new_pubkey(&ark.user.public_key()),
        ark_server_pubkey: server,
        adaptor_point: SecretKey::random().public_key(),
    };
    let check = |offer: &ArkOffer, inputs: Vec<ArkVtxo>| {
        let transfer = ArkTransfer { inputs, outputs: vec![] };
        ark.chain.settle(|log| verify_live_ark_transfer(log, offer, &transfer, 124, 6))
    };
    let fine = offer(ark.server.public_key());
    assert_eq!(check(&fine, vec![input()]), CheckStep::Pass);
    assert_eq!(check(&fine, vec![]), CheckStep::Fail(SwapError::TransferInputMismatch));
    assert_eq!(check(&fine, vec![input(), input()]), CheckStep::Fail(SwapError::TransferInputMismatch));
    let other = offer(SecretKey::random().public_key());
    assert_eq!(check(&other, vec![input()]), CheckStep::Fail(SwapError::TransferServerMismatch));
}

#[test]
fn fees_are_what_inputs_leave() {
    let mut chain = Chain::new();
    let (point, _) = coin(&mut chain, 1, 60);
    let parent = pay(&[OutPoint { txid: [7; 32], vout: 0 }], vec![TxOut { value: 330, script_pubkey: vec![] }]);
    let anchor = OutPoint { txid: parent.txid(), vout: 0 };
    let child = pay(&[anchor, point], vec![TxOut { value: 50_000, script_pubkey: vec![] }]);
    let fee = |chain: &Chain, tx: &Transaction, known: Option<&Transaction>| {
        let mut log = vec![];
        loop {
            match transaction_fee(&log, tx, known) {
                Err(CheckStep::Need(query)) => log.push(chain.answer(query)),
                Err(CheckStep::Fail(error)) => return Err(error),
                Err(CheckStep::Pass) => unreachable!(),
                Ok(fee) => return Ok(fee),
            }
        }
    };
    assert_eq!(fee(&chain, &child, Some(&parent)), Ok(330));
    assert_eq!(fee(&chain, &child, None), Err(SwapError::FeeInputMissing));
    let mut greedy = child.clone();
    greedy.output[0].value = 50_331;
    assert_eq!(fee(&chain, &greedy, Some(&parent)), Err(SwapError::InvalidTransactionFee));
    let mut lost = child.clone();
    lost.input[0].previous_output.vout = 1;
    assert_eq!(fee(&chain, &lost, Some(&parent)), Err(SwapError::ParentOutputMissing));
    let rich = pay(&[], vec![TxOut { value: u64::MAX, script_pubkey: vec![] }]);
    let both = pay(&[OutPoint { txid: rich.txid(), vout: 0 }, point], vec![]);
    assert_eq!(fee(&chain, &both, Some(&rich)), Err(SwapError::AmountOverflow));
}

#[test]
fn targets_keep_the_floor_of_the_request() {
    let mut chain = Chain::new();
    let mut relay = RelayFile::new_request(SwapId::random(), request(&mut chain));
    assert_eq!(target_fee(None, &relay), Ok(Target::Ask { floor: 250 }));
    assert_eq!(target_fee(Some(3), &relay), Ok(Target::Known(750)));
    assert_eq!(target_fee(Some(0), &relay), Err(SwapError::FeeRateZero));
    assert_eq!(estimated_fee(249, &relay), Ok(250));
    assert_eq!(estimated_fee(251, &relay), Ok(251));
    relay.request.fee_rate_sat_vb = 0;
    assert_eq!(target_fee(None, &relay), Err(SwapError::FeeRateZero));
}

#[test]
fn confirmations_count_the_block_itself() {
    assert!(has_confirmations(105, 100, 6));
    assert!(!has_confirmations(104, 100, 6));
    assert!(!has_confirmations(99, 100, 0));
    assert!(has_confirmations(100, 100, 1));
    assert!(has_confirmations(u32::MAX, 0, u32::MAX));
}

/// The outputs of a cosigned transfer of `value` out of an input, the receiver's first.
fn transferred(ark: &Ark, value: u64, policy: ark::VtxoPolicy) -> Vec<Vec<u8>> {
    let input = ark::Vtxo::<ark::vtxo::Full>::deserialize(&ark.vtxo).unwrap();
    let change = ark::VtxoPolicy::new_pubkey(keypair_of(&SecretKey::random()).public_key());
    let signed = ArkoorPackageBuilder::new_single_output_with_checkpoints(
        [input],
        ArkoorDestination { total_amount: Amount::from_sat(value), policy },
        change,
    )
    .unwrap()
    .cosign_both(&[keypair_of(&ark.user)], &keypair_of(&ark.server))
    .unwrap();
    signed.build_signed_vtxos().iter().map(|vtxo| vtxo.serialize()).collect()
}

#[test]
fn ancestry_may_be_shared_but_not_conflict() {
    let ark = ark_input(1_000, 144);
    let key = || ark::VtxoPolicy::new_pubkey(keypair_of(&SecretKey::random()).public_key());
    let outputs = transferred(&ark, 6_000, key());
    assert_eq!(outputs.len(), 2);
    assert_eq!(live(&ark, &[&outputs[0]], 124), CheckStep::Pass);
    assert_eq!(live(&ark, &[&outputs[0], &outputs[1]], 124), CheckStep::Pass);
    let others = transferred(&ark, 7_000, key());
    assert_eq!(live(&ark, &[&outputs[0], &others[0]], 124), CheckStep::Fail(SwapError::ConflictingAncestry));
    assert_eq!(live(&ark, &[&outputs[0], &ark.vtxo], 124), CheckStep::Fail(SwapError::InputIsAncestor));
    assert_eq!(live(&ark, &[&ark.vtxo, &outputs[0]], 124), CheckStep::Fail(SwapError::InputIsAncestor));
}

#[test]
fn ark_inputs_are_signed_and_simple() {
    let ark = ark_input(1_000, 144);
    let policy = ark::VtxoPolicy::new_server_htlc_send(
        keypair_of(&ark.user).public_key(),
        ark::lightning::PaymentHash::from([7; 32]),
        200.into(),
    );
    let outputs = transferred(&ark, 6_000, policy);
    assert_eq!(live(&ark, &[&outputs[0]], 124), CheckStep::Fail(SwapError::ArkInputPolicy));
    let input = ark::Vtxo::<ark::vtxo::Full>::deserialize(&ark.vtxo).unwrap();
    let key = || ark::VtxoPolicy::new_pubkey(keypair_of(&SecretKey::random()).public_key());
    let unsigned = ArkoorPackageBuilder::new_single_output_with_checkpoints(
        [input],
        ArkoorDestination { total_amount: Amount::from_sat(6_000), policy: key() },
        key(),
    )
    .unwrap();
    let bytes = unsigned.build_unsigned_vtxos().next().unwrap().serialize();
    assert_eq!(live(&ark, &[&bytes], 124), CheckStep::Fail(SwapError::InvalidGenesis));
}

#[test]
fn claims_wait_for_the_exact_lock() {
    let (bob, alice) = (SecretKey::random(), SecretKey::random());
    let lock = BtcLockContract::new(
        50_000, Network::Regtest, &bob.public_key(), &alice.public_key(), &bob.public_key().x_only_public_key(), 124,
    )
    .unwrap();
    let mut chain = Chain::new();
    let funding = pay(&[OutPoint { txid: [1; 32], vout: 0 }], vec![lock.txout()]);
    let point = chain.confirm(&funding, 95);
    let check = |chain: &Chain, lock: &BtcLockContract, confirmations, margin| {
        chain.settle(|log| verify_claim_window(log, point, lock, confirmations, margin))
    };
    assert_eq!(check(&chain, &lock, 6, 6), CheckStep::Pass);
    assert_eq!(check(&chain, &lock, 7, 6), CheckStep::Fail(SwapError::FundingTooShallow));
    assert_eq!(check(&chain, &lock, 0, 6), CheckStep::Fail(SwapError::ConfirmationsZero));
    assert_eq!(check(&chain, &lock, 6, 0), CheckStep::Fail(SwapError::MarginZero));
    assert_eq!(check(&chain, &lock, 6, 23), CheckStep::Pass);
    assert_eq!(check(&chain, &lock, 6, 24), CheckStep::Fail(SwapError::WindowTooShort));
    let mut other = lock.clone();
    other.amount += 1;
    assert_eq!(check(&chain, &other, 6, 6), CheckStep::Fail(SwapError::FundingMismatch));
}
