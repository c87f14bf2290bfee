//! Output scripts: their kinds, the least value that an output may carry, and the refund script.

use vstd::prelude::*;

use crate::genesis::little;
use crate::tx::{TxOut, TxOutView};

verus! {

/// The number from which a lock time is a time and no longer a block height.
pub const LOCK_TIME_THRESHOLD: u32 = 500_000_000;

/// The least value of a standard taproot output, in satoshis.
pub const P2TR_DUST: u64 = 330;

/// Whether a script pays a public key hash.
pub open spec fn p2pkh(script: Seq<u8>) -> bool {
    script.len() == 25 && script[0] == 0x76 && script[1] == 0xa9 && script[2] == 0x14 && script[23] == 0x88
        && script[24] == 0xac
}

/// Whether a script pays a script hash.
pub open spec fn p2sh(script: Seq<u8>) -> bool {
    script.len() == 23 && script[0] == 0xa9 && script[1] == 0x14 && script[22] == 0x87
}

/// Whether a script pays a witness public key hash.
pub open spec fn p2wpkh(script: Seq<u8>) -> bool {
    script.len() == 22 && script[0] == 0x00 && script[1] == 0x14
}

/// Whether a script pays a witness script hash.
pub open spec fn p2wsh(script: Seq<u8>) -> bool {
    script.len() == 34 && script[0] == 0x00 && script[1] == 0x20
}

/// Whether a script pays a taproot key.
pub open spec fn p2tr(script: Seq<u8>) -> bool {
    script.len() == 34 && script[0] == 0x51 && script[1] == 0x20
}

/// Whether a script makes its output unspendable.
pub open spec fn op_return(script: Seq<u8>) -> bool {
    script.len() > 0 && script[0] == 0x6a
}

/// Whether a script is a witness version and one push of 2 to 40 bytes.
pub open spec fn witness_program(script: Seq<u8>) -> bool {
    4 <= script.len() <= 42 && (script[0] == 0x00 || 0x51 <= script[0] <= 0x60) && script[1] == script.len() - 2
}

/// Whether an output of this script can only be spent by witnesses.
pub open spec fn native_segwit(script: Seq<u8>) -> bool {
    p2wpkh(script) || p2wsh(script) || p2tr(script)
}

/// Whether an output is relayed: a known script with a value that is no dust, or short data.
pub open spec fn standard(output: TxOutView) -> bool {
    let script = output.script_pubkey;
    if p2pkh(script) {
        output.value >= 546
    } else if p2sh(script) {
        output.value >= 540
    } else if p2wpkh(script) {
        output.value >= 270
    } else if p2wsh(script) {
        output.value >= 330
    } else if p2tr(script) {
        output.value >= 330
    } else {
        op_return(script) && script.len() <= 83
    }
}

/// The bytes of the length that precedes a script of `len` bytes.
pub open spec fn compact_size(len: int) -> int {
    if len <= 0xfc {
        1
    } else if len <= 0xffff {
        3
    } else if len <= 0xffff_ffff {
        5
    } else {
        9
    }
}

/// The least value with which nodes relay an output of this script.
pub open spec fn minimal_non_dust(script: Seq<u8>) -> int {
    if op_return(script) {
        0
    } else if witness_program(script) {
        3 * (75 + script.len() + compact_size(script.len() as int))
    } else {
        3 * (156 + script.len() + compact_size(script.len() as int))
    }
}

/// Whether a script pays a taproot key.
pub fn is_p2tr(script: &[u8]) -> (found: bool)
    ensures
        found == p2tr(script@),
{
    script.len() == 34 && script[0] == 0x51 && script[1] == 0x20
}

/// Whether an output of this script can only be spent by witnesses.
pub fn is_native_segwit(script: &[u8]) -> (found: bool)
    ensures
        found == native_segwit(script@),
{
    (script.len() == 22 && script[0] == 0x00 && script[1] == 0x14) || (script.len() == 34 && (script[0] == 0x00
        || script[0] == 0x51) && script[1] == 0x20)
}

/// Whether an output is relayed.
pub fn is_standard(output: &TxOut) -> (found: bool)
    ensures
        found == standard(output@),
{
    let script = output.script_pubkey.as_slice();
    if script.len() == 25 && script[0] == 0x76 && script[1] == 0xa9 && script[2] == 0x14 && script[23] == 0x88
        && script[24] == 0xac {
        output.value >= 546
    } else if script.len() == 23 && script[0] == 0xa9 && script[1] == 0x14 && script[22] == 0x87 {
        output.value >= 540
    } else if script.len() == 22 && script[0] == 0x00 && script[1] == 0x14 {
        output.value >= 270
    } else if script.len() == 34 && (script[0] == 0x00 || script[0] == 0x51) && script[1] == 0x20 {
        output.value >= 330
    } else {
        script.len() > 0 && script[0] == 0x6a && script.len() <= 83
    }
}

/// Whether an output carries at least the value with which nodes relay its script.
pub fn clears_dust(output: &TxOut) -> (found: bool)
    ensures
        found == (output@.value >= minimal_non_dust(output@.script_pubkey)),
{
    let script = output.script_pubkey.as_slice();
    let len: usize = script.len();
    if len > 0 && script[0] == 0x6a {
        return true;
    }
    let prefix: u128 = if len <= 0xfc {
        1
    } else if len <= 0xffff {
        3
    } else if len as u64 <= 0xffff_ffff {
        5
    } else {
        9
    };
    let spend: u128 = if len >= 4 && len <= 42 && (script[0] == 0x00 || (script[0] >= 0x51 && script[0] <= 0x60))
        && script[1] as usize == len - 2 {
        75
    } else {
        156
    };
    output.value as u128 >= 3 * (spend + len as u128 + prefix)
}

/// The script of a pay-to-anchor output, which anybody can spend.
pub open spec fn anchor_script() -> Seq<u8> {
    seq![0x51u8, 0x02, 0x4e, 0x73]
}

/// The pay-to-anchor output of value `amount`.
pub fn fee_anchor_with_amount(amount: u64) -> (output: TxOut)
    ensures
        output@ == (TxOutView { value: amount, script_pubkey: anchor_script() }),
{
    let mut script: Vec<u8> = Vec::new();
    script.push(0x51);
    script.push(0x02);
    script.push(0x4e);
    script.push(0x73);
    assert(script@ =~= anchor_script());
    TxOut { value: amount, script_pubkey: script }
}

/// The bytes of a positive number in script: least significant first, and one zero byte more
/// where the last would read as a sign.
pub open spec fn script_number(number: nat) -> Seq<u8>
    decreases number,
{
    if number < 0x80 {
        seq![number as u8]
    } else if number < 0x100 {
        seq![number as u8, 0u8]
    } else {
        seq![(number % 0x100) as u8] + script_number(number / 0x100)
    }
}

/// The instruction that pushes a number.
pub open spec fn push_number(number: nat) -> Seq<u8> {
    if number == 0 {
        seq![0u8]
    } else if number <= 16 {
        seq![(0x50 + number) as u8]
    } else {
        seq![script_number(number).len() as u8] + script_number(number)
    }
}

/// The script by which a key spends from block `height` on: the height, `OP_CLTV`, `OP_DROP`,
/// the key, `OP_CHECKSIG`.
pub open spec fn timelock_script(height: nat, key: Seq<u8>) -> Seq<u8> {
    push_number(height) + seq![0xb1u8, 0x75, 0x20] + key + seq![0xacu8]
}

/// The bytes of a positive number in script.
fn number_bytes(number: u32) -> (bytes: Vec<u8>)
    ensures
        bytes@ == script_number(number as nat),
        bytes@.len() <= 5,
{
    let mut bytes: Vec<u8> = Vec::new();
    let mut rest: u32 = number;
    while rest >= 0x100
        invariant
            bytes@ + script_number(rest as nat) == script_number(number as nat),
            bytes@.len() == 0 || (bytes@.len() == 1 && rest < 0x100_0000) || (bytes@.len() == 2 && rest < 0x1_0000)
                || (bytes@.len() == 3 && rest < 0x100),
        decreases rest,
    {
        let ghost before = bytes@;
        bytes.push((rest % 0x100) as u8);
        assert(script_number(rest as nat) == seq![(rest as nat % 0x100) as u8] + script_number(rest as nat / 0x100));
        assert(before + (seq![(rest as nat % 0x100) as u8] + script_number(rest as nat / 0x100)) =~= bytes@
            + script_number(rest as nat / 0x100));
        rest = rest / 0x100;
    }
    let ghost before = bytes@;
    bytes.push(rest as u8);
    if rest >= 0x80 {
        bytes.push(0);
    }
    assert(bytes@ =~= before + script_number(rest as nat));
    bytes
}

/// The script by which `key` spends from block `height` on.
pub fn timelock_sign(height: u32, key: &[u8; 32]) -> (script: Vec<u8>)
    ensures
        script@ == timelock_script(height as nat, key@),
{
    let mut script: Vec<u8> = Vec::new();
    if height == 0 {
        script.push(0);
    } else if height <= 16 {
        script.push(0x50 + height as u8);
    } else {
        let mut number = number_bytes(height);
        script.push(number.len() as u8);
        script.append(&mut number);
    }
    assert(script@ =~= push_number(height as nat));
    script.push(0xb1);
    script.push(0x75);
    script.push(0x20);
    let ghost before = script@;
    let mut i: usize = 0;
    while i < 32
        invariant
            i <= 32,
            script@ == before + key@.take(i as int),
        decreases 32 - i,
    {
        script.push(key[i]);
        assert(key@.take(i + 1) =~= key@.take(i as int).push(key@[i as int]));
        i += 1;
    }
    assert(key@.take(32) =~= key@);
    script.push(0xac);
    assert(script@ =~= timelock_script(height as nat, key@));
    script
}

/// The bytes of a number in a script are its digits to the base of 256, the lowest first, and the highest
/// leaves the sign bit free: they read back as the number.
pub proof fn law_script_number_reads_back(number: nat)
    ensures
        script_number(number).len() > 0,
        little(script_number(number), 0, script_number(number).len()) == number,
        script_number(number).last() < 0x80,
    decreases number,
{
    reveal_with_fuel(little, 3);
    let bytes = script_number(number);
    if number >= 0x100 {
        let rest = script_number(number / 0x100);
        law_script_number_reads_back(number / 0x100);
        assert(bytes =~= seq![(number % 0x100) as u8] + rest);
        lemma_little_of_the_rest(bytes, rest, 0, rest.len());
        assert(bytes.last() == rest.last());
    }
}

/// The number of the bytes behind the first one is the number of the rest.
proof fn lemma_little_of_the_rest(bytes: Seq<u8>, rest: Seq<u8>, at: int, len: nat)
    requires
        0 <= at,
        at + len <= rest.len(),
        bytes.len() == rest.len() + 1,
        forall|i: int| 0 <= i < rest.len() ==> bytes[i + 1] == rest[i],
    ensures
        little(bytes, at + 1, len) == little(rest, at, len),
    decreases len,
{
    if len > 0 {
        assert(bytes[at + 1] == rest[at]);
        lemma_little_of_the_rest(bytes, rest, at + 1, (len - 1) as nat);
    }
}

/// A standard output is worth at least the dust of its kind: nothing less goes to a public key hash, a
/// script hash, a witness program of a known kind, or taproot; other scripts are data of at most 83
/// bytes, which may be worth anything.
pub proof fn law_standard_output_is_no_dust(output: TxOutView)
    ensures
        ({
            let script = output.script_pubkey;
            let hash = script.len() == 25 && script[0] == 0x76 && script[1] == 0xa9 && script[2] == 0x14 && script[23]
                == 0x88 && script[24] == 0xac;
            let script_hash = script.len() == 23 && script[0] == 0xa9 && script[1] == 0x14 && script[22] == 0x87;
            let short_program = script.len() == 22 && script[0] == 0x00 && script[1] == 0x14;
            let long_program = script.len() == 34 && (script[0] == 0x00 || script[0] == 0x51) && script[1] == 0x20;
            let data = 0 < script.len() <= 83 && script[0] == 0x6a;
            standard(output) <==> (hash && output.value >= 546) || (script_hash && output.value >= 540) || (short_program
                && output.value >= 270) || (long_program && output.value >= 330) || data
        }),
{
}

/// What a script may be paid at least: three satoshis for each byte of the output and of the input that will
/// spend it.
pub proof fn law_dust_pays_for_its_spending(script: Seq<u8>)
    requires
        script.len() < 0xfd,
    ensures
        script.len() > 0 && script[0] == 0x6a ==> minimal_non_dust(script) == 0,
        4 <= script.len() <= 42 && (script[0] == 0 || 0x51 <= script[0] <= 0x60) && script[1] == script.len() - 2
            ==> minimal_non_dust(script) == 3 * (8 + 1 + script.len() + 67),
        script.len() == 25 && script[0] == 0x76 ==> minimal_non_dust(script) == 3 * (8 + 1 + script.len() + 148),
{
}

/// The native SegWit scripts that are taken are the witness programs of version zero with 20 or 32 bytes, and
/// of version one with 32 bytes.
pub proof fn law_native_segwit_scripts(script: Seq<u8>)
    ensures
        native_segwit(script) <==> (script.len() == 22 && script[0] == 0 && script[1] == 20) || (script.len() == 34
            && script[0] == 0 && script[1] == 32) || (script.len() == 34 && script[0] == 0x51 && script[1] == 32),
{
}

/// The script of a refund pushes the height, demands that the lock time has reached it, and then demands a
/// signature of the key: a height above 16 is pushed as its bytes, the lowest first, behind their count.
pub proof fn law_timelock_script_demands_height_and_key(height: nat, key: Seq<u8>)
    requires
        16 < height < 500_000_000,
        key.len() == 32,
    ensures
        ({
            let script = timelock_script(height, key);
            let end = script.len() - 36;
            &&& 2 <= end
            &&& script[0] == end - 1 && little(script, 1, (end - 1) as nat) == height && script[end - 1] < 0x80
            &&& script[end] == 0xb1 && script[end + 1] == 0x75 && script[end + 2] == 0x20
            &&& script.subrange(end + 3, end + 35) == key
            &&& script[end + 35] == 0xac
        }),
{
    let digits = script_number(height);
    law_script_number_reads_back(height);
    lemma_script_number_is_short(height);
    let script = timelock_script(height, key);
    let end = script.len() - 36;
    assert(end == digits.len() + 1);
    assert(script.subrange(end + 3, end + 35) =~= key);
    lemma_little_within(script, digits, 0, digits.len());
    assert(script[end - 1] == digits.last());
}

/// The number of bytes that stand behind the first one of longer bytes.
proof fn lemma_little_within(bytes: Seq<u8>, part: Seq<u8>, at: int, len: nat)
    requires
        0 <= at,
        at + len <= part.len(),
        part.len() < bytes.len(),
        forall|i: int| 0 <= i < part.len() ==> bytes[i + 1] == part[i],
    ensures
        little(bytes, at + 1, len) == little(part, at, len),
    decreases len,
{
    if len > 0 {
        assert(bytes[at + 1] == part[at]);
        lemma_little_within(bytes, part, at + 1, (len - 1) as nat);
    }
}

/// A number of at most 32 bits has at most five bytes in a script.
proof fn lemma_script_number_is_short(number: nat)
    requires
        number < 0x1_0000_0000,
    ensures
        script_number(number).len() <= 5,
{
    reveal_with_fuel(script_number, 6);
}

/// The length before a script takes the fewest bytes that can write it: one up to 252, and else one that tells
/// how many follow, with two, four or eight.
pub proof fn law_length_takes_the_fewest_bytes(len: int)
    requires
        0 <= len,
    ensures
        compact_size(len) == 1 <==> len < 253,
        compact_size(len) == 1 + 2 <==> 253 <= len < 0x1_0000,
        compact_size(len) == 1 + 4 <==> 0x1_0000 <= len < 0x1_0000_0000,
        compact_size(len) == 1 + 8 <==> 0x1_0000_0000 <= len,
{
}

} // verus!
