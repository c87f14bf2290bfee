//! The partially signed funding, which the BTC payer keeps until it signs.

use bitcoin::consensus::encode::deserialize_hex;
use bitcoin::hashes::Hash as _;
use bitcoin::Psbt;
use vstd::prelude::*;

use crate::error::SwapError;
use crate::hex::{bytes_from_hex, bytes_hex, hex_text, hex_value, law_hex_round_trip};
use crate::tx::{hex_of_tx, tx_from_hex, tx_of_hex, unsigned, OutPoint, Transaction, TransactionView, TxIn, TxOut};

verus! {

/// The unsigned transaction of a partially signed one, if the bytes encode one.
pub uninterp spec fn psbt_tx(bytes: Seq<u8>) -> Option<TransactionView>;

/// The encoding of a partially signed transaction with another unsigned one, about whose output at
/// a slot nothing is known.
pub uninterp spec fn psbt_with(bytes: Seq<u8>, tx: TransactionView, slot: nat) -> Seq<u8>;

/// `bitcoin::Psbt::deserialize`: the unsigned transaction, and nothing where it refuses the bytes.
#[verifier::external_body]
fn read_psbt_tx(bytes: &[u8]) -> (tx: Option<Transaction>)
    ensures
        match tx {
            Some(found) => psbt_tx(bytes@) == Some(found@),
            None => psbt_tx(bytes@) is None,
        },
{
    let tx = Psbt::deserialize(bytes).ok()?.unsigned_tx;
    let input = tx.input.into_iter().map(|from| TxIn {
        previous_output: OutPoint {
            txid: from.previous_output.txid.to_byte_array(), vout: from.previous_output.vout,
        },
        script_sig: from.script_sig.into_bytes(), sequence: from.sequence.0, witness: from.witness.to_vec(),
    }).collect();
    let output = tx.output.into_iter().map(|from| TxOut {
        value: from.value.to_sat(), script_pubkey: from.script_pubkey.into_bytes(),
    }).collect();
    Some(Transaction { version: tx.version.0, lock_time: tx.lock_time.to_consensus_u32(), input, output })
}

/// Whether a transaction can take the place of another one that is not signed: it has no scripts and
/// witnesses on its inputs, and as many inputs and outputs.
pub open spec fn takes_place(from: TransactionView, to: TransactionView) -> bool {
    unsigned(to) == to && from.input.len() == to.input.len() && from.output.len() == to.output.len()
}

/// `bitcoin::Psbt::serialize` of a partially signed transaction with another unsigned one and
/// nothing known about the output at a slot. What `Psbt::deserialize` reads has as many outputs
/// as its unsigned transaction, so that the slot is there. It reads the result too, where the other
/// transaction has no scripts and witnesses on its inputs and as many inputs and outputs, and the
/// result has no more bytes than it reads of a map.
#[verifier::external_body]
fn replace_psbt_tx(bytes: &[u8], tx_hex: &str, slot: usize) -> (changed: Vec<u8>)
    requires
        psbt_tx(bytes@) matches Some(unsigned) && slot < unsigned.output.len(),
        tx_of_hex(tx_hex@) is Some,
    ensures
        changed@ == psbt_with(bytes@, tx_of_hex(tx_hex@)->0, slot as nat),
        takes_place(psbt_tx(bytes@)->0, tx_of_hex(tx_hex@)->0) && changed@.len() <= 4_000_000 ==> psbt_tx(changed@)
            == tx_of_hex(tx_hex@),
{
    let mut psbt = Psbt::deserialize(bytes).unwrap();
    psbt.unsigned_tx = deserialize_hex(tx_hex).unwrap();
    psbt.outputs[slot] = Default::default();
    psbt.serialize()
}

/// The text of the stored partially signed transaction with the funding that a text writes in place
/// of its template, or why there is none.
pub open spec fn psbt_of_funding(psbt_hex: Seq<char>, template_hex: Seq<char>, funding_hex: Seq<char>, slot: nat) -> Result<
    Seq<char>,
    SwapError,
> {
    match hex_value(psbt_hex) {
        None => Err(SwapError::InvalidHex),
        Some(bytes) => match psbt_tx(bytes) {
            None => Err(SwapError::InvalidPsbt),
            Some(tx) => if hex_of_tx(tx) != template_hex || slot >= tx.output.len() {
                Err(SwapError::PsbtMismatch)
            } else {
                match tx_of_hex(funding_hex) {
                    None => Err(SwapError::InvalidTransaction),
                    Some(funding) => Ok(hex_text(psbt_with(bytes, funding, slot))),
                }
            },
        },
    }
}

/// Whether a text writes a partially signed transaction whose unsigned one is the funding that a text
/// writes, where that can take the place of the one before and the text is not longer than is read.
pub open spec fn holds_funding(psbt_hex: Seq<char>, funding_hex: Seq<char>, changed_hex: Seq<char>) -> bool {
    takes_place(psbt_tx(hex_value(psbt_hex)->0)->0, tx_of_hex(funding_hex)->0) && changed_hex.len() <= 8_000_000 ==> (
    hex_value(changed_hex) matches Some(changed) && psbt_tx(changed) == tx_of_hex(funding_hex))
}

/// The stored partially signed transaction with the funding that a text writes in place of its
/// template.
pub fn put_funding(psbt_hex: &str, template_hex: &String, funding_hex: &str, slot: u32) -> (psbt: Result<String, SwapError>)
    ensures
        match psbt {
            Ok(found) => psbt_of_funding(psbt_hex@, template_hex@, funding_hex@, slot as nat) == Ok::<
                Seq<char>,
                SwapError,
            >(found@),
            Err(error) => psbt_of_funding(psbt_hex@, template_hex@, funding_hex@, slot as nat) == Err::<
                Seq<char>,
                SwapError,
            >(error),
        },
        psbt matches Ok(found) ==> holds_funding(psbt_hex@, funding_hex@, found@),
{
    let bytes = match bytes_from_hex(psbt_hex) {
        Ok(bytes) => bytes,
        Err(error) => return Err(error),
    };
    let tx = match read_psbt_tx(bytes.as_slice()) {
        Some(tx) => tx,
        None => return Err(SwapError::InvalidPsbt),
    };
    assert(tx@.output.len() == tx.output@.len());
    if tx.to_hex() != *template_hex || slot as usize >= tx.output.len() {
        return Err(SwapError::PsbtMismatch);
    }
    match tx_from_hex(funding_hex) {
        Ok(_) => {
            let changed = replace_psbt_tx(bytes.as_slice(), funding_hex, slot as usize);
            proof {
                law_hex_round_trip(changed@);
            }
            Ok(bytes_hex(changed.as_slice()))
        },
        Err(error) => Err(error),
    }
}

/// A funding takes the place of the template exactly where the PSBT can be read, its transaction is the
/// template, its slot is there, and the funding can be read.
pub proof fn law_funding_takes_the_place_of_its_template(
    psbt_hex: Seq<char>,
    template_hex: Seq<char>,
    funding_hex: Seq<char>,
    slot: nat,
)
    ensures
        psbt_of_funding(psbt_hex, template_hex, funding_hex, slot) is Ok <==> (hex_value(psbt_hex) matches Some(bytes)
            && psbt_tx(bytes) matches Some(template) && hex_of_tx(template) == template_hex && slot < template.output.len()
            && tx_of_hex(funding_hex) is Some),
        psbt_of_funding(psbt_hex, template_hex, funding_hex, slot) matches Ok(text) ==> hex_value(text) == Some(
            psbt_with(hex_value(psbt_hex)->0, tx_of_hex(funding_hex)->0, slot),
        ),
{
    if psbt_of_funding(psbt_hex, template_hex, funding_hex, slot) is Ok {
        law_hex_round_trip(psbt_with(hex_value(psbt_hex)->0, tx_of_hex(funding_hex)->0, slot));
    }
}

} // verus!
