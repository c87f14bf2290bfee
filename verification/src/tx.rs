//! Bitcoin transactions as plain values.

use bitcoin::absolute::LockTime;
use bitcoin::consensus::encode::{deserialize_hex, serialize_hex};
use bitcoin::hashes::Hash as _;
use bitcoin::transaction::Version;
use bitcoin::{Amount, ScriptBuf, Sequence, Txid, Witness};
use vstd::prelude::*;

use crate::bytes::{byte_list_copy, byte_lists_eq, byte_views, bytes_eq};
use crate::error::SwapError;

verus! {

/// The output of a transaction that an input spends.
#[derive(Clone, Copy, Debug, PartialEq, Eq, Hash)]
pub struct OutPoint {
    pub txid: [u8; 32],
    pub vout: u32,
}

/// An output of a transaction.
#[derive(Debug, PartialEq, Eq)]
pub struct TxOut {
    pub value: u64,
    pub script_pubkey: Vec<u8>,
}

/// An input of a transaction.
#[derive(Debug, PartialEq, Eq)]
pub struct TxIn {
    pub previous_output: OutPoint,
    pub script_sig: Vec<u8>,
    pub sequence: u32,
    pub witness: Vec<Vec<u8>>,
}

/// A transaction; `lock_time` is its consensus number.
#[derive(Debug, PartialEq, Eq)]
pub struct Transaction {
    pub version: i32,
    pub lock_time: u32,
    pub input: Vec<TxIn>,
    pub output: Vec<TxOut>,
}

/// What an output is.
#[verifier::ext_equal]
pub struct TxOutView {
    pub value: u64,
    pub script_pubkey: Seq<u8>,
}

/// What an input is.
#[verifier::ext_equal]
pub struct TxInView {
    pub previous_output: OutPoint,
    pub script_sig: Seq<u8>,
    pub sequence: u32,
    pub witness: Seq<Seq<u8>>,
}

/// What a transaction is.
#[verifier::ext_equal]
pub struct TransactionView {
    pub version: i32,
    pub lock_time: u32,
    pub input: Seq<TxInView>,
    pub output: Seq<TxOutView>,
}

impl View for TxOut {
    type V = TxOutView;

    open spec fn view(&self) -> TxOutView {
        TxOutView { value: self.value, script_pubkey: self.script_pubkey@ }
    }
}

impl View for TxIn {
    type V = TxInView;

    open spec fn view(&self) -> TxInView {
        TxInView {
            previous_output: self.previous_output,
            script_sig: self.script_sig@,
            sequence: self.sequence,
            witness: byte_views(self.witness@),
        }
    }
}

/// The views of a list of inputs.
pub open spec fn input_views(items: Seq<TxIn>) -> Seq<TxInView> {
    items.map_values(|item: TxIn| item@)
}

/// The views of a list of outputs.
pub open spec fn output_views(items: Seq<TxOut>) -> Seq<TxOutView> {
    items.map_values(|item: TxOut| item@)
}

impl View for Transaction {
    type V = TransactionView;

    open spec fn view(&self) -> TransactionView {
        TransactionView {
            version: self.version,
            lock_time: self.lock_time,
            input: input_views(self.input@),
            output: output_views(self.output@),
        }
    }
}

impl OutPoint {
    /// Whether two outpoints are the same.
    pub fn same(&self, other: &OutPoint) -> (same: bool)
        ensures
            same == (*self == *other),
    {
        let same = bytes_eq(self.txid.as_slice(), other.txid.as_slice());
        proof {
            if same {
                assert(self.txid =~= other.txid);
            }
        }
        same && self.vout == other.vout
    }
}

/// Whether two 32-byte identifiers are the same.
pub fn same_id(a: &[u8; 32], b: &[u8; 32]) -> (same: bool)
    ensures
        same == (*a == *b),
{
    let same = bytes_eq(a.as_slice(), b.as_slice());
    proof {
        if same {
            assert(*a =~= *b);
        }
    }
    same
}

/// Whether an identifier is one of a list.
pub fn id_listed(items: &Vec<[u8; 32]>, id: &[u8; 32]) -> (found: bool)
    ensures
        found == items@.contains(*id),
{
    let mut i: usize = 0;
    while i < items.len()
        invariant
            i <= items.len(),
            forall|k: int| 0 <= k < i ==> items@[k] != *id,
        decreases items.len() - i,
    {
        if same_id(&items[i], id) {
            assert(items@[i as int] == *id);
            return true;
        }
        i += 1;
    }
    false
}

impl Clone for TxOut {
    fn clone(&self) -> (copy: TxOut)
        ensures
            copy@ == self@,
    {
        TxOut { value: self.value, script_pubkey: self.script_pubkey.clone() }
    }
}

impl Clone for TxIn {
    fn clone(&self) -> (copy: TxIn)
        ensures
            copy@ == self@,
    {
        TxIn {
            previous_output: self.previous_output,
            script_sig: self.script_sig.clone(),
            sequence: self.sequence,
            witness: byte_list_copy(&self.witness),
        }
    }
}

impl Clone for Transaction {
    fn clone(&self) -> (copy: Transaction)
        ensures
            copy@ == self@,
    {
        let mut input: Vec<TxIn> = Vec::new();
        let mut i: usize = 0;
        while i < self.input.len()
            invariant
                i <= self.input.len(),
                input.len() == i,
                forall|k: int| 0 <= k < i ==> (#[trigger] input[k])@ == self.input[k]@,
            decreases self.input.len() - i,
        {
            input.push(self.input[i].clone());
            i += 1;
        }
        let output = outputs_copy(&self.output);
        let copy = Transaction { version: self.version, lock_time: self.lock_time, input, output };
        assert(copy@.input =~= self@.input);
        copy
    }
}

/// A copy of a list of outputs.
pub fn outputs_copy(items: &Vec<TxOut>) -> (copy: Vec<TxOut>)
    ensures
        output_views(copy@) == output_views(items@),
{
    let mut copy: Vec<TxOut> = Vec::new();
    let mut i: usize = 0;
    while i < items.len()
        invariant
            i <= items.len(),
            copy.len() == i,
            forall|k: int| 0 <= k < i ==> (#[trigger] copy[k])@ == items[k]@,
        decreases items.len() - i,
    {
        copy.push(items[i].clone());
        i += 1;
    }
    assert(output_views(copy@) =~= output_views(items@));
    copy
}

impl TxOut {
    /// Whether two outputs are the same.
    pub fn same(&self, other: &TxOut) -> (same: bool)
        ensures
            same == (self@ == other@),
    {
        self.value == other.value && bytes_eq(self.script_pubkey.as_slice(), other.script_pubkey.as_slice())
    }
}

impl TxIn {
    /// Whether two inputs are the same.
    pub fn same(&self, other: &TxIn) -> (same: bool)
        ensures
            same == (self@ == other@),
    {
        self.previous_output.same(&other.previous_output) && bytes_eq(
            self.script_sig.as_slice(),
            other.script_sig.as_slice(),
        ) && self.sequence == other.sequence && byte_lists_eq(&self.witness, &other.witness)
    }
}

impl Transaction {
    /// Whether two transactions are the same, witnesses included.
    pub fn same(&self, other: &Transaction) -> (same: bool)
        ensures
            same == (self@ == other@),
    {
        if self.version != other.version || self.lock_time != other.lock_time || self.input.len()
            != other.input.len() || self.output.len() != other.output.len() {
            assert(self@.input.len() != other@.input.len() || self@.output.len() != other@.output.len()
                || self.version != other.version || self.lock_time != other.lock_time);
            return false;
        }
        let mut i: usize = 0;
        while i < self.input.len()
            invariant
                i <= self.input.len(),
                self.input.len() == other.input.len(),
                forall|k: int| 0 <= k < i ==> self@.input[k] == other@.input[k],
            decreases self.input.len() - i,
        {
            if !self.input[i].same(&other.input[i]) {
                assert(self@.input[i as int] != other@.input[i as int]);
                return false;
            }
            i += 1;
        }
        let mut j: usize = 0;
        while j < self.output.len()
            invariant
                j <= self.output.len(),
                self.output.len() == other.output.len(),
                forall|k: int| 0 <= k < j ==> self@.output[k] == other@.output[k],
            decreases self.output.len() - j,
        {
            if !self.output[j].same(&other.output[j]) {
                assert(self@.output[j as int] != other@.output[j as int]);
                return false;
            }
            j += 1;
        }
        assert(self@ =~= other@);
        true
    }
}

/// An input without its witness.
pub open spec fn bare_input(input: TxInView) -> TxInView {
    TxInView { witness: Seq::empty(), ..input }
}

/// A transaction without its witnesses.
pub open spec fn stripped(tx: TransactionView) -> TransactionView {
    TransactionView { input: tx.input.map_values(|input: TxInView| bare_input(input)), ..tx }
}

/// A transaction without its scripts and witnesses of the inputs, which no signature hash of taproot
/// covers.
pub open spec fn unsigned(tx: TransactionView) -> TransactionView {
    TransactionView {
        input: tx.input.map_values(
            |input: TxInView| TxInView { script_sig: Seq::empty(), witness: Seq::empty(), ..input },
        ),
        ..tx
    }
}

/// A transaction without its witnesses.
pub fn without_witness(tx: &Transaction) -> (unsigned: Transaction)
    ensures
        unsigned@ == stripped(tx@),
{
    let mut input: Vec<TxIn> = Vec::new();
    let mut i: usize = 0;
    while i < tx.input.len()
        invariant
            i <= tx.input.len(),
            input.len() == i,
            forall|k: int| 0 <= k < i ==> (#[trigger] input[k])@ == bare_input(tx.input[k]@),
        decreases tx.input.len() - i,
    {
        let from = &tx.input[i];
        let bare = TxIn {
            previous_output: from.previous_output,
            script_sig: from.script_sig.clone(),
            sequence: from.sequence,
            witness: Vec::new(),
        };
        assert(bare@ =~= bare_input(from@));
        input.push(bare);
        i += 1;
    }
    let unsigned = Transaction {
        version: tx.version,
        lock_time: tx.lock_time,
        input,
        output: outputs_copy(&tx.output),
    };
    assert(unsigned@.input =~= stripped(tx@).input);
    unsigned
}

/// Whether every input of a transaction carries a witness.
pub open spec fn fully_signed(tx: TransactionView) -> bool {
    forall|i: int| 0 <= i < tx.input.len() ==> (#[trigger] tx.input[i]).witness.len() > 0
}

/// Whether every input of a transaction carries a witness.
pub fn is_fully_signed(tx: &Transaction) -> (signed: bool)
    ensures
        signed == fully_signed(tx@),
{
    let mut i: usize = 0;
    while i < tx.input.len()
        invariant
            i <= tx.input.len(),
            forall|k: int| 0 <= k < i ==> (#[trigger] tx@.input[k]).witness.len() > 0,
        decreases tx.input.len() - i,
    {
        if tx.input[i].witness.len() == 0 {
            assert(tx@.input[i as int].witness.len() == 0);
            return false;
        }
        i += 1;
    }
    true
}

/// The sum of the values of some outputs.
pub open spec fn total_value(outputs: Seq<TxOutView>) -> int
    decreases outputs.len(),
{
    if outputs.len() == 0 {
        0
    } else {
        total_value(outputs.drop_last()) + outputs.last().value
    }
}

/// The sum of fewer outputs is not larger.
pub proof fn lemma_total_value_grows(outputs: Seq<TxOutView>, len: int)
    requires
        0 <= len <= outputs.len(),
    ensures
        0 <= total_value(outputs.take(len)) <= total_value(outputs),
    decreases outputs.len() - len, outputs.len(),
{
    if outputs.len() == 0 {
        assert(outputs.take(len) =~= outputs);
    } else if len == outputs.len() {
        assert(outputs.take(len) =~= outputs);
        lemma_total_value_grows(outputs.drop_last(), outputs.len() - 1);
        assert(outputs.drop_last().take(outputs.len() - 1) =~= outputs.drop_last());
    } else {
        lemma_total_value_grows(outputs, len + 1);
        assert(outputs.take(len + 1).drop_last() =~= outputs.take(len));
        lemma_total_value_grows(outputs.take(len), len);
        assert(outputs.take(len).take(len) =~= outputs.take(len));
    }
}

/// The sum of the values of `outputs`, if it can be held.
pub fn sum_outputs(outputs: &Vec<TxOut>) -> (sum: Result<u64, SwapError>)
    ensures
        match sum {
            Ok(found) => found == total_value(output_views(outputs@)),
            Err(error) => total_value(output_views(outputs@)) > u64::MAX && error == SwapError::AmountOverflow,
        },
{
    let ghost views = output_views(outputs@);
    let mut sum: u64 = 0;
    let mut i: usize = 0;
    assert(views.take(0) =~= Seq::<TxOutView>::empty());
    while i < outputs.len()
        invariant
            i <= outputs.len(),
            views == output_views(outputs@),
            sum == total_value(views.take(i as int)),
        decreases outputs.len() - i,
    {
        assert(views.take(i + 1).drop_last() =~= views.take(i as int));
        assert(views[i as int].value == outputs[i as int].value);
        match sum.checked_add(outputs[i].value) {
            Some(next) => {
                sum = next;
            },
            None => {
                proof {
                    lemma_total_value_grows(views, i + 1);
                }
                return Err(SwapError::AmountOverflow);
            },
        }
        i += 1;
    }
    assert(views.take(views.len() as int) =~= views);
    Ok(sum)
}

/// The transaction that a hexadecimal text encodes by the rules of consensus, or nothing.
pub uninterp spec fn tx_of_hex(text: Seq<char>) -> Option<TransactionView>;

/// The hexadecimal text of the consensus encoding of a transaction.
pub uninterp spec fn hex_of_tx(tx: TransactionView) -> Seq<char>;

/// The output that a hexadecimal text encodes by the rules of consensus, or nothing.
pub uninterp spec fn txout_of_hex(text: Seq<char>) -> Option<TxOutView>;

/// The hexadecimal text of the consensus encoding of an output.
pub uninterp spec fn hex_of_txout(output: TxOutView) -> Seq<char>;

/// The identifier of a transaction.
pub uninterp spec fn txid_of(tx: TransactionView) -> [u8; 32];

/// How many bytes a count takes.
pub open spec fn count_size(count: nat) -> nat {
    if count < 0xfd {
        1
    } else if count <= 0xffff {
        3
    } else if count <= 0xffff_ffff {
        5
    } else {
        9
    }
}

/// How many bytes some byte strings take, each behind the count of its bytes.
pub open spec fn strings_size(lengths: Seq<nat>) -> nat
    decreases lengths.len(),
{
    if lengths.len() == 0 {
        0
    } else {
        strings_size(lengths.drop_last()) + count_size(lengths.last()) + lengths.last()
    }
}

/// How many bytes inputs take without their witnesses: an outpoint of 36, a script and a sequence of
/// four each.
pub open spec fn inputs_size(inputs: Seq<(nat, Seq<nat>)>) -> nat {
    40 * inputs.len() + strings_size(inputs.map_values(|input: (nat, Seq<nat>)| input.0))
}

/// How many bytes the witnesses of inputs take: the count of the items, and the items.
pub open spec fn witnesses_size(inputs: Seq<(nat, Seq<nat>)>) -> nat
    decreases inputs.len(),
{
    if inputs.len() == 0 {
        0
    } else {
        witnesses_size(inputs.drop_last()) + count_size(inputs.last().1.len()) + strings_size(inputs.last().1)
    }
}

/// How many bytes a transaction takes without its witnesses: a version and a lock time of four each,
/// the inputs, and the outputs, each with a value of eight and a script, behind their counts.
pub open spec fn base_size(inputs: Seq<(nat, Seq<nat>)>, outputs: Seq<nat>) -> nat {
    8 + count_size(inputs.len()) + inputs_size(inputs) + count_size(outputs.len()) + 8 * outputs.len() + strings_size(
        outputs,
    )
}

/// The weight units of a transaction whose inputs have scripts and witness items of some lengths, and
/// whose outputs have scripts of some lengths: four for each byte but those of the witnesses, which
/// count one each, with two for their marker, where there is a witness or no input.
#[verifier::opaque]
pub open spec fn weight_of_lengths(inputs: Seq<(nat, Seq<nat>)>, outputs: Seq<nat>) -> nat {
    if inputs.len() == 0 || exists|i: int| 0 <= i < inputs.len() && (#[trigger] inputs[i]).1.len() > 0 {
        4 * base_size(inputs, outputs) + 2 + witnesses_size(inputs)
    } else {
        4 * base_size(inputs, outputs)
    }
}

/// The lengths of the script and of the witness items of every input.
pub open spec fn input_lengths(tx: TransactionView) -> Seq<(nat, Seq<nat>)> {
    tx.input.map_values(
        |input: TxInView| (input.script_sig.len(), input.witness.map_values(|item: Seq<u8>| item.len())),
    )
}

/// The lengths of the scripts of the outputs.
pub open spec fn output_lengths(tx: TransactionView) -> Seq<nat> {
    tx.output.map_values(|output: TxOutView| output.script_pubkey.len())
}

/// The weight units of a transaction.
pub open spec fn weight_of(tx: TransactionView) -> nat {
    weight_of_lengths(input_lengths(tx), output_lengths(tx))
}

/// `bitcoin::consensus::encode::deserialize_hex` for a transaction: the transaction that the
/// whole text encodes, and nothing where it refuses the text.
#[verifier::external_body]
pub(crate) fn decode_tx(hex: &str) -> (tx: Option<Transaction>)
    ensures
        match tx {
            Some(found) => tx_of_hex(hex@) == Some(found@),
            None => tx_of_hex(hex@) is None,
        },
{
    let tx: bitcoin::Transaction = deserialize_hex(hex).ok()?;
    let input = tx.input.into_iter().map(|from| TxIn {
        previous_output: OutPoint {
            txid: from.previous_output.txid.to_byte_array(), vout: from.previous_output.vout,
        },
        script_sig: from.script_sig.into_bytes(), sequence: from.sequence.0, witness: from.witness.to_vec(),
    }).collect();
    let output = tx.output.into_iter().map(|from| TxOut {
        value: from.value.to_sat(), script_pubkey: from.script_pubkey.into_bytes(),
    }).collect();
    Some(Transaction { version: tx.version.0, lock_time: tx.lock_time.to_consensus_u32(), input, output })
}

/// The most characters that the text of a transaction has where it is read back: two for each of
/// the bytes that the reader takes at most.
pub const MAX_TX_HEX: u64 = 8_000_000;

/// `bitcoin::consensus::encode::serialize_hex` of a transaction. `deserialize_hex` gives the
/// transaction back, where the text is not longer than it reads.
#[verifier::external_body]
pub(crate) fn encode_tx(tx: &Transaction) -> (hex: String)
    ensures
        hex@ == hex_of_tx(tx@),
        hex@.len() <= MAX_TX_HEX ==> tx_of_hex(hex@) == Some(tx@),
{
    serialize_hex(&bitcoin::Transaction {
        version: Version(tx.version), lock_time: LockTime::from_consensus(tx.lock_time),
        input: tx.input.iter().map(|from| bitcoin::TxIn {
            previous_output: bitcoin::OutPoint::new(
                Txid::from_byte_array(from.previous_output.txid), from.previous_output.vout),
            script_sig: ScriptBuf::from_bytes(from.script_sig.clone()),
            sequence: Sequence(from.sequence), witness: Witness::from_slice(&from.witness),
        }).collect(),
        output: tx.output.iter().map(|from| bitcoin::TxOut {
            value: Amount::from_sat(from.value), script_pubkey: ScriptBuf::from_bytes(from.script_pubkey.clone()),
        }).collect(),
    })
}

/// `bitcoin::consensus::encode::deserialize_hex` for an output.
#[verifier::external_body]
pub(crate) fn decode_txout(hex: &str) -> (output: Option<TxOut>)
    ensures
        match output {
            Some(found) => txout_of_hex(hex@) == Some(found@),
            None => txout_of_hex(hex@) is None,
        },
{
    let output: bitcoin::TxOut = deserialize_hex(hex).ok()?;
    Some(TxOut { value: output.value.to_sat(), script_pubkey: output.script_pubkey.into_bytes() })
}

/// `bitcoin::consensus::encode::serialize_hex` of an output.
#[verifier::external_body]
pub(crate) fn encode_txout(output: &TxOut) -> (hex: String)
    ensures
        hex@ == hex_of_txout(output@),
{
    serialize_hex(&bitcoin::TxOut {
        value: Amount::from_sat(output.value),
        script_pubkey: ScriptBuf::from_bytes(output.script_pubkey.clone()),
    })
}

/// `bitcoin::Transaction::compute_txid`, which hashes the transaction without its witnesses.
#[verifier::external_body]
pub(crate) fn compute_txid(tx: &Transaction) -> (txid: [u8; 32])
    ensures
        txid == txid_of(tx@),
        txid == txid_of(stripped(tx@)),
{
    bitcoin::Transaction {
        version: Version(tx.version), lock_time: LockTime::from_consensus(tx.lock_time),
        input: tx.input.iter().map(|from| bitcoin::TxIn {
            previous_output: bitcoin::OutPoint::new(
                Txid::from_byte_array(from.previous_output.txid), from.previous_output.vout),
            script_sig: ScriptBuf::from_bytes(from.script_sig.clone()),
            sequence: Sequence(from.sequence), witness: Witness::from_slice(&from.witness),
        }).collect(),
        output: tx.output.iter().map(|from| bitcoin::TxOut {
            value: Amount::from_sat(from.value), script_pubkey: ScriptBuf::from_bytes(from.script_pubkey.clone()),
        }).collect(),
    }.compute_txid().to_byte_array()
}

/// A transaction weighs at least its empty form, ten bytes.
pub proof fn lemma_least_weight(tx: TransactionView)
    ensures
        weight_of(tx) >= 40,
{
    reveal(weight_of_lengths);
}

/// `bitcoin::Transaction::weight`, in weight units: three times the size without the witnesses and
/// once the whole size, which depend on the lengths of the scripts and of the witness items alone.
#[verifier::external_body]
pub(crate) fn weight(tx: &Transaction) -> (weight: u64)
    ensures
        weight == weight_of_lengths(input_lengths(tx@), output_lengths(tx@)),
{
    bitcoin::Transaction {
        version: Version(tx.version), lock_time: LockTime::from_consensus(tx.lock_time),
        input: tx.input.iter().map(|from| bitcoin::TxIn {
            previous_output: bitcoin::OutPoint::new(
                Txid::from_byte_array(from.previous_output.txid), from.previous_output.vout),
            script_sig: ScriptBuf::from_bytes(from.script_sig.clone()),
            sequence: Sequence(from.sequence), witness: Witness::from_slice(&from.witness),
        }).collect(),
        output: tx.output.iter().map(|from| bitcoin::TxOut {
            value: Amount::from_sat(from.value), script_pubkey: ScriptBuf::from_bytes(from.script_pubkey.clone()),
        }).collect(),
    }.weight().to_wu()
}

/// The transaction that `hex` encodes.
pub fn tx_from_hex(hex: &str) -> (tx: Result<Transaction, SwapError>)
    ensures
        match tx {
            Ok(found) => tx_of_hex(hex@) == Some(found@),
            Err(error) => tx_of_hex(hex@) is None && error == SwapError::InvalidTransaction,
        },
{
    match decode_tx(hex) {
        Some(tx) => Ok(tx),
        None => Err(SwapError::InvalidTransaction),
    }
}

/// The output that `hex` encodes.
pub fn txout_from_hex(hex: &str) -> (output: Result<TxOut, SwapError>)
    ensures
        match output {
            Ok(found) => txout_of_hex(hex@) == Some(found@),
            Err(error) => txout_of_hex(hex@) is None && error == SwapError::InvalidOutput,
        },
{
    match decode_txout(hex) {
        Some(output) => Ok(output),
        None => Err(SwapError::InvalidOutput),
    }
}

impl Transaction {
    /// The identifier of this transaction, which does not depend on its witnesses.
    pub fn txid(&self) -> (txid: [u8; 32])
        ensures
            txid == txid_of(self@),
            txid == txid_of(stripped(self@)),
    {
        compute_txid(self)
    }

    /// The weight units of this transaction.
    pub fn weight_units(&self) -> (units: u64)
        ensures
            units == weight_of(self@),
    {
        weight(self)
    }

    /// The hexadecimal text of this transaction.
    pub fn to_hex(&self) -> (hex: String)
        ensures
            hex@ == hex_of_tx(self@),
            hex@.len() <= MAX_TX_HEX ==> tx_of_hex(hex@) == Some(self@),
    {
        encode_tx(self)
    }
}

impl TxOut {
    /// The hexadecimal text of this output.
    pub fn to_hex(&self) -> (hex: String)
        ensures
            hex@ == hex_of_txout(self@),
    {
        encode_txout(self)
    }
}

/// The text by which a transaction identifier is shown: its bytes in reverse order.
pub open spec fn txid_text(txid: [u8; 32]) -> Seq<char> {
    crate::hex::hex_text(txid@.reverse())
}

/// The text by which a transaction identifier is shown.
pub fn txid_to_string(txid: &[u8; 32]) -> (text: String)
    ensures
        text@ == txid_text(*txid),
{
    let mut reversed = [0u8; 32];
    let mut i: usize = 0;
    while i < 32
        invariant
            i <= 32,
            forall|k: int| 0 <= k < i ==> reversed[k] == txid[31 - k],
        decreases 32 - i,
    {
        reversed[i] = txid[31 - i];
        i += 1;
    }
    assert(reversed@ =~= txid@.reverse());
    crate::hex::bytes_hex(reversed.as_slice())
}

/// The total value of outputs is their sum: one output is worth its value, and the outputs of two
/// lists are worth what the lists are worth together.
pub proof fn law_total_value_adds_up(a: Seq<TxOutView>, b: Seq<TxOutView>, output: TxOutView)
    ensures
        total_value(Seq::empty()) == 0,
        total_value(seq![output]) == output.value,
        total_value(a + b) == total_value(a) + total_value(b),
    decreases b.len(),
{
    reveal_with_fuel(total_value, 2);
    assert(seq![output].drop_last() =~= Seq::<TxOutView>::empty());
    if b.len() == 0 {
        assert(a + b =~= a);
    } else {
        law_total_value_adds_up(a, b.drop_last(), output);
        assert((a + b).drop_last() =~= a + b.drop_last());
    }
}

/// A transaction without its witnesses keeps all else: what it spends and pays, its version and its
/// lock time.
pub proof fn law_stripping_takes_the_witnesses_alone(tx: TransactionView)
    ensures
        stripped(tx).version == tx.version && stripped(tx).lock_time == tx.lock_time,
        stripped(tx).output == tx.output,
        stripped(tx).input.len() == tx.input.len(),
        forall|i: int|
            0 <= i < tx.input.len() ==> {
                &&& (#[trigger] stripped(tx).input[i]).previous_output == tx.input[i].previous_output
                &&& stripped(tx).input[i].script_sig == tx.input[i].script_sig
                &&& stripped(tx).input[i].sequence == tx.input[i].sequence
                &&& stripped(tx).input[i].witness.len() == 0
            },
{
}

} // verus!
