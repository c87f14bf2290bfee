//! The genesis of an encoded VTXO: the steps from its anchor, and the tweaks of their keys.

use vstd::prelude::*;

use crate::bytes::{array32, array33};
use crate::keys::{is_public_key, PublicKey};
use crate::musig::{takes_tweak, tweak_accepted};

verus! {

/// The number that some bytes write, least significant byte first.
pub open spec fn little(bytes: Seq<u8>, at: int, len: nat) -> nat
    decreases len,
{
    if len == 0 {
        0
    } else {
        bytes[at] as nat + 256 * little(bytes, at + 1, (len - 1) as nat)
    }
}

/// How many bytes a count takes whose first byte is given.
pub open spec fn count_len(first: u8) -> int {
    if first == 0xff {
        9
    } else if first == 0xfe {
        5
    } else if first == 0xfd {
        3
    } else {
        1
    }
}

/// The count that stands at a place, and the place behind it, where there are so many bytes.
pub open spec fn count_at(bytes: Seq<u8>, at: int) -> Option<(nat, int)> {
    if at >= bytes.len() || at + count_len(bytes[at]) > bytes.len() {
        None
    } else if count_len(bytes[at]) == 1 {
        Some((bytes[at] as nat, at + 1))
    } else {
        let len = count_len(bytes[at]);
        Some((little(bytes, at + 1, (len - 1) as nat), at + len))
    }
}

/// The place behind some outputs: each is a value of eight bytes, a count and so many bytes.
pub open spec fn outputs_end(bytes: Seq<u8>, at: int, count: nat) -> Option<int>
    decreases count,
{
    if count == 0 {
        Some(at)
    } else {
        match count_at(bytes, at + 8) {
            None => None,
            Some((len, start)) => if start + len > bytes.len() {
                None
            } else {
                outputs_end(bytes, start + len, (count - 1) as nat)
            },
        }
    }
}

/// Some keys of 33 bytes that stand one behind the other.
pub open spec fn keys_at(bytes: Seq<u8>, at: int, count: nat) -> Seq<Seq<u8>> {
    Seq::new(count, |i: int| bytes.subrange(at + 33 * i, at + 33 * i + 33))
}

/// A step that spends an output of the aggregate of some keys and the server's, under a tweak.
pub struct TweakedStep {
    pub keys: Seq<Seq<u8>>,
    pub tweak: Seq<u8>,
}

/// The tweaked step whose transition stands at a place, if it is one, and the place behind the
/// transition.
///
/// A cosigned transition is a list of keys and a signature, and a tweaked one has its tweak between
/// them; the two with a hash lock are a key, a signature, a byte, and a hash or a preimage.
pub open spec fn transition_at(bytes: Seq<u8>, at: int) -> Option<(Option<TweakedStep>, int)> {
    if at >= bytes.len() {
        None
    } else if bytes[at] == 1 || bytes[at] == 2 {
        match count_at(bytes, at + 1) {
            None => None,
            Some((count, start)) => {
                let end = start + 33 * count;
                let keys = keys_at(bytes, start, count);
                if bytes[at] == 1 {
                    Some((None, end + 64))
                } else if end + 96 > bytes.len() {
                    None
                } else if exists|i: int| 0 <= i < count && !is_public_key(#[trigger] keys[i]) {
                    None
                } else {
                    Some((Some(TweakedStep { keys, tweak: bytes.subrange(end, end + 32) }), end + 96))
                }
            },
        }
    } else if bytes[at] == 3 || bytes[at] == 4 {
        Some((None, at + 131))
    } else {
        None
    }
}

/// The tweaked step that stands at a place, if it is one, and the place behind it: behind the
/// transition stand the number of outputs, the index of the next one, the other outputs, and the
/// fee, where the encoding has fees.
pub open spec fn step_at(bytes: Seq<u8>, at: int, fees: bool) -> Option<(Option<TweakedStep>, int)> {
    match transition_at(bytes, at) {
        None => None,
        Some((step, outputs)) => if outputs + 2 > bytes.len() || bytes[outputs] == 0 {
            None
        } else {
            match outputs_end(bytes, outputs + 2, (bytes[outputs] - 1) as nat) {
                None => None,
                Some(end) => if !fees {
                    Some((step, end))
                } else if end + 8 > bytes.len() {
                    None
                } else {
                    Some((step, end + 8))
                },
            }
        },
    }
}

/// Whether the aggregate of the keys of every tweaked step takes its tweak, of so many steps from a
/// place on.
pub open spec fn tweaks_taken_from(bytes: Seq<u8>, at: int, count: nat, fees: bool, server: Seq<u8>) -> bool
    decreases count,
{
    if count == 0 {
        true
    } else {
        match step_at(bytes, at, fees) {
            None => false,
            Some((step, next)) => {
                &&& step matches Some(tweaked) ==> tweak_accepted(tweaked.keys.push(server).to_multiset(), tweaked.tweak)
                &&& tweaks_taken_from(bytes, next, (count - 1) as nat, fees, server)
            },
        }
    }
}

/// Whether the aggregate of the keys of every tweaked step of an encoded VTXO takes its tweak.
///
/// The encoding begins with its version in two bytes, of which the first one has no fees, the
/// amount in eight, the expiry in four, the server's key, the exit delay in two, and the anchor in 36.
pub open spec fn tweaks_taken(bytes: Seq<u8>) -> bool {
    &&& bytes.len() >= 85
    &&& is_public_key(bytes.subrange(14, 47))
    &&& count_at(bytes, 85) matches Some((count, at)) && tweaks_taken_from(
        bytes,
        at,
        count,
        little(bytes, 0, 2) != 1,
        bytes.subrange(14, 47),
    )
}

/// Reads a number, least significant byte first.
fn read_little(bytes: &[u8], at: usize, len: usize) -> (value: u64)
    requires
        len <= 8,
        at + len <= bytes@.len(),
    ensures
        value == little(bytes@, at as int, len as nat),
        len < 8 ==> value < 0x100_0000_0000_0000,
    decreases len,
{
    reveal_with_fuel(little, 9);
    if len == 0 {
        return 0;
    }
    let low: u64 = bytes[at] as u64;
    let high: u64 = read_little(bytes, at + 1, len - 1);
    low + 256 * high
}

/// Reads a count.
fn read_count(bytes: &[u8], at: usize) -> (count: Option<(u64, usize)>)
    ensures
        match count {
            Some((value, next)) => count_at(bytes@, at as int) == Some((value as nat, next as int)) && next <= bytes@.len(),
            None => count_at(bytes@, at as int) is None,
        },
{
    if at >= bytes.len() {
        return None;
    }
    let first: u8 = bytes[at];
    let len: usize = if first == 0xff {
        9
    } else if first == 0xfe {
        5
    } else if first == 0xfd {
        3
    } else {
        1
    };
    if len > bytes.len() - at {
        return None;
    }
    if len == 1 {
        return Some((first as u64, at + 1));
    }
    Some((read_little(bytes, at + 1, len - 1), at + len))
}

/// Skips some outputs.
fn skip_outputs(bytes: &[u8], at: usize, count: u8) -> (end: Option<usize>)
    requires
        at <= bytes@.len(),
    ensures
        match end {
            Some(found) => outputs_end(bytes@, at as int, count as nat) == Some(found as int) && found <= bytes@.len(),
            None => outputs_end(bytes@, at as int, count as nat) is None,
        },
{
    let mut place: usize = at;
    let mut left: u8 = count;
    while left > 0
        invariant
            place <= bytes@.len(),
            outputs_end(bytes@, place as int, left as nat) == outputs_end(bytes@, at as int, count as nat),
        decreases left,
    {
        if bytes.len() - place < 8 {
            return None;
        }
        let (len, start) = match read_count(bytes, place + 8) {
            Some(found) => found,
            None => return None,
        };
        if len > (bytes.len() - start) as u64 {
            return None;
        }
        place = start + len as usize;
        left -= 1;
    }
    Some(place)
}

/// Reads a tweaked transition from its first key on, tells whether its keys with the server's take
/// the tweak, and the place behind it.
fn read_tweaked(bytes: &[u8], start: usize, count: u64, server: &PublicKey) -> (read: Option<(bool, usize)>)
    requires
        start <= bytes@.len(),
    ensures
        ({
            let end = start + 33 * count;
            let keys = keys_at(bytes@, start as int, count as nat);
            match read {
                Some((taken, next)) => {
                    &&& next == end + 96 && next <= bytes@.len()
                    &&& forall|i: int| 0 <= i < count ==> is_public_key(#[trigger] keys[i])
                    &&& taken == tweak_accepted(keys.push(server@).to_multiset(), bytes@.subrange(end, end + 32))
                },
                None => end + 96 > bytes@.len() || exists|i: int| 0 <= i < count && !is_public_key(#[trigger] keys[i]),
            }
        }),
{
    let room: usize = bytes.len() - start;
    if room < 96 || count > ((room - 96) / 33) as u64 {
        return None;
    }
    let total: usize = count as usize;
    let ghost views = keys_at(bytes@, start as int, count as nat);
    let mut keys: Vec<PublicKey> = Vec::new();
    let mut i: usize = 0;
    while i < total
        invariant
            i <= total,
            total == count,
            start + 33 * total + 96 <= bytes@.len() <= usize::MAX,
            views == keys_at(bytes@, start as int, count as nat),
            keys.len() == i,
            forall|k: int| 0 <= k < i ==> (#[trigger] keys[k])@ == views[k] && is_public_key(views[k]),
        decreases total - i,
    {
        let from: usize = start + 33 * i;
        let slice = vstd::slice::slice_subrange(bytes, from, from + 33);
        assert(slice@ =~= views[i as int]);
        let found = array33(slice);
        assert(found@ =~= views[i as int]);
        let ghost so_far = keys@;
        match PublicKey::from_bytes(found) {
            Some(key) => keys.push(key),
            None => return None,
        }
        assert forall|k: int| 0 <= k <= i implies (#[trigger] keys[k])@ == views[k] && is_public_key(views[k]) by {
            if k < i {
                assert(keys@[k] == so_far[k]);
            }
        }
        i += 1;
    }
    let end: usize = start + 33 * total;
    let tweak = array32(vstd::slice::slice_subrange(bytes, end, end + 32));
    keys.push(*server);
    assert(keys@.map_values(|key: PublicKey| key@) =~= views.push(server@));
    assert(tweak@ =~= bytes@.subrange(end as int, end + 32));
    let taken = takes_tweak(&keys, &tweak);
    assert forall|k: int| 0 <= k < count implies is_public_key(#[trigger] views[k]) by {
        assert(keys[k]@ == views[k]);
    }
    Some((taken, end + 96))
}

/// Reads a transition, tells whether it is a tweaked one whose keys do not take the tweak, and the
/// place behind it, where that lies within the bytes.
fn read_transition(bytes: &[u8], at: usize, server: &PublicKey) -> (read: Option<(bool, usize)>)
    requires
        at <= bytes@.len(),
    ensures
        match read {
            Some((taken, next)) => transition_at(bytes@, at as int) matches Some((step, end)) && end == next && next
                <= bytes@.len() && taken == (step matches Some(tweaked) ==> tweak_accepted(
                tweaked.keys.push(server@).to_multiset(),
                tweaked.tweak,
            )),
            None => transition_at(bytes@, at as int) matches Some((_, end)) ==> end > bytes@.len(),
        },
{
    if at >= bytes.len() {
        return None;
    }
    let kind: u8 = bytes[at];
    if kind == 1 || kind == 2 {
        let (count, start) = match read_count(bytes, at + 1) {
            Some(found) => found,
            None => return None,
        };
        if kind == 2 {
            return read_tweaked(bytes, start, count, server);
        }
        let room: usize = bytes.len() - start;
        if room < 64 || count > ((room - 64) / 33) as u64 {
            return None;
        }
        return Some((true, start + 33 * (count as usize) + 64));
    }
    if (kind == 3 || kind == 4) && bytes.len() - at >= 131 {
        return Some((true, at + 131));
    }
    None
}

/// Whether the aggregate of the keys of every tweaked step of an encoded VTXO takes its tweak.
pub fn takes_tweaks(bytes: &[u8]) -> (taken: bool)
    ensures
        taken == tweaks_taken(bytes@),
{
    if bytes.len() < 85 {
        return false;
    }
    let server_bytes = array33(vstd::slice::slice_subrange(bytes, 14, 47));
    assert(server_bytes@ =~= bytes@.subrange(14, 47));
    let server = match PublicKey::from_bytes(server_bytes) {
        Some(key) => key,
        None => return false,
    };
    let fees = read_little(bytes, 0, 2) != 1;
    let (count, start) = match read_count(bytes, 85) {
        Some(found) => found,
        None => return false,
    };
    let mut at: usize = start;
    let mut left: u64 = count;
    while left > 0
        invariant
            85 <= bytes@.len(),
            at <= bytes@.len(),
            server@ == bytes@.subrange(14, 47),
            is_public_key(server@),
            fees == (little(bytes@, 0, 2) != 1),
            count_at(bytes@, 85) == Some((count as nat, start as int)),
            tweaks_taken_from(bytes@, at as int, left as nat, fees, server@) == tweaks_taken_from(
                bytes@,
                start as int,
                count as nat,
                fees,
                server@,
            ),
        decreases left,
    {
        let (taken, outputs) = match read_transition(bytes, at, &server) {
            Some(found) => found,
            None => return false,
        };
        if bytes.len() - outputs < 2 || bytes[outputs] == 0 || !taken {
            return false;
        }
        let end: usize = match skip_outputs(bytes, outputs + 2, bytes[outputs] - 1) {
            Some(found) => found,
            None => return false,
        };
        if fees {
            if bytes.len() - end < 8 {
                return false;
            }
            at = end + 8;
        } else {
            at = end;
        }
        left -= 1;
    }
    true
}

/// A count below 253 is its byte; a larger one stands behind a byte that tells how many bytes it has, the least
/// significant first. A count that is cut off is none.
pub proof fn law_count_is_read_as_it_is_written(bytes: Seq<u8>, at: int)
    requires
        0 <= at < bytes.len(),
    ensures
        bytes[at] < 0xfd ==> count_at(bytes, at) == Some((bytes[at] as nat, at + 1)),
        bytes[at] == 0xfd ==> count_at(bytes, at) == (if at + 3 <= bytes.len() {
            Some(((bytes[at + 1] + 0x100 * bytes[at + 2]) as nat, at + 3))
        } else {
            None
        }),
        bytes[at] == 0xfe ==> count_at(bytes, at) == (if at + 5 <= bytes.len() {
            Some(
                (
                    (bytes[at + 1] + 0x100 * bytes[at + 2] + 0x1_0000 * bytes[at + 3] + 0x100_0000 * bytes[at
                        + 4]) as nat,
                    at + 5,
                ),
            )
        } else {
            None
        }),
        bytes[at] == 0xff ==> (count_at(bytes, at) is Some <==> at + 9 <= bytes.len()),
        bytes[at] == 0xff ==> (count_at(bytes, at) matches Some((count, next)) ==> next == at + 9 && count == bytes[at + 1]
            + 0x100 * bytes[at + 2] + 0x1_0000 * bytes[at + 3] + 0x100_0000 * bytes[at + 4] + 0x1_0000_0000 * bytes[at + 5]
            + 0x100_0000_0000 * bytes[at + 6] + 0x1_0000_0000_0000 * bytes[at + 7] + 0x100_0000_0000_0000 * bytes[at + 8]),
{
    reveal_with_fuel(little, 9);
}

/// A tweaked transition of fewer than 253 keys is read back: its keys, its tweak, and the place behind its
/// signature of 64 bytes.
pub proof fn law_tweaked_transition_is_read(
    bytes: Seq<u8>,
    at: int,
    keys: Seq<Seq<u8>>,
    tweak: Seq<u8>,
)
    requires
        0 <= at,
        keys.len() < 0xfd,
        at + 2 + 33 * keys.len() + 32 + 64 <= bytes.len(),
        bytes[at] == 2 && bytes[at + 1] == keys.len(),
        forall|i: int|
            0 <= i < keys.len() ==> (#[trigger] keys[i]) == bytes.subrange(at + 2 + 33 * i, at + 35 + 33 * i),
        tweak == bytes.subrange(at + 2 + 33 * keys.len(), at + 34 + 33 * keys.len()),
    ensures
        transition_at(bytes, at) == (if forall|i: int| 0 <= i < keys.len() ==> is_public_key(#[trigger] keys[i]) {
            Some((Some(TweakedStep { keys, tweak }), at + 2 + 33 * keys.len() + 32 + 64))
        } else {
            None
        }),
{
    let start = at + 2;
    let read = keys_at(bytes, start, keys.len());
    assert forall|i: int| 0 <= i < keys.len() implies #[trigger] read[i] == keys[i] by {
        assert(at + 35 + 33 * i == start + 33 * i + 33);
    }
    assert(read =~= keys);
    assert(count_at(bytes, at + 1) == Some((keys.len(), start)));
}

/// The other transitions have no tweak: a list of keys of 33 bytes with a signature of 64, or a key, a signature,
/// a byte, and a hash or a preimage of 32.
pub proof fn law_other_transitions_have_no_tweak(bytes: Seq<u8>, at: int)
    requires
        0 <= at < bytes.len(),
    ensures
        bytes[at] == 1 && at + 1 < bytes.len() && bytes[at + 1] < 0xfd ==> transition_at(bytes, at) == Some(
            (None::<TweakedStep>, at + 2 + 33 * bytes[at + 1] + 64),
        ),
        bytes[at] == 3 || bytes[at] == 4 ==> transition_at(bytes, at) == Some(
            (None::<TweakedStep>, at + 1 + 33 + 64 + 1 + 32),
        ),
        bytes[at] == 0 || bytes[at] > 4 ==> transition_at(bytes, at) is None,
{
}

/// Outputs are skipped one by one: each is a value of eight bytes, a count, and so many bytes.
pub proof fn law_outputs_are_skipped_one_by_one(bytes: Seq<u8>, places: Seq<int>)
    requires
        places.len() > 0,
        forall|i: int|
            0 <= i < places.len() - 1 ==> 0 <= #[trigger] places[i] && places[i] + 8 < bytes.len() && bytes[places[i] + 8]
                < 0xfd && places.index(i + 1) == places[i] + 9 + bytes[places[i] + 8] && places.index(i + 1) <= bytes.len(),
    ensures
        outputs_end(bytes, places[0], (places.len() - 1) as nat) == Some(places.last()),
    decreases places.len(),
{
    if places.len() > 1 {
        let rest = places.skip(1);
        let first = places[0];
        assert(places[1] == first + 9 + bytes[first + 8]);
        assert forall|i: int| 0 <= i < rest.len() - 1 implies 0 <= #[trigger] rest[i] && rest[i] + 8 < bytes.len() && bytes[
        rest[i] + 8] < 0xfd && rest.index(i + 1) == rest[i] + 9 + bytes[rest[i] + 8] && rest.index(i + 1)
            <= bytes.len() by {
            assert(rest[i] == places[i + 1]);
            assert(rest[i + 1] == places[i + 2]);
            assert(places.index(i + 1 + 1) == places[i + 2]);
        }
        law_outputs_are_skipped_one_by_one(bytes, rest);
        assert(rest.last() == places.last());
        assert(count_at(bytes, first + 8) == Some((bytes[first + 8] as nat, first + 9)));
    }
}

/// A genesis is taken exactly where the keys of every one of its tweaked steps, with the server's, take the tweak
/// of the step.
pub proof fn law_every_tweak_is_asked_for(
    bytes: Seq<u8>,
    fees: bool,
    server: Seq<u8>,
    places: Seq<int>,
    steps: Seq<Option<TweakedStep>>,
)
    requires
        places.len() == steps.len() + 1,
        forall|i: int|
            0 <= i < steps.len() ==> step_at(bytes, places[i], fees) == Some((#[trigger] steps[i], places.index(i + 1))),
    ensures
        tweaks_taken_from(bytes, places[0], steps.len(), fees, server) <==> (forall|i: int|
            0 <= i < steps.len() ==> ((#[trigger] steps[i]) matches Some(step) ==> tweak_accepted(
                step.keys.push(server).to_multiset(),
                step.tweak,
            ))),
    decreases steps.len(),
{
    if steps.len() > 0 {
        let rest = steps.skip(1);
        let after = places.skip(1);
        assert forall|i: int| 0 <= i < rest.len() implies step_at(bytes, after[i], fees) == Some(
            (#[trigger] rest[i], after.index(i + 1)),
        ) by {
            assert(rest[i] == steps[i + 1]);
            assert(after[i + 1] == places[i + 2]);
        }
        law_every_tweak_is_asked_for(bytes, fees, server, after, rest);
        assert(step_at(bytes, places[0], fees) == Some((steps[0], places[1])));
        assert(forall|i: int| 0 < i < steps.len() ==> #[trigger] steps[i] == rest[i - 1]);
        assert(forall|i: int| 0 <= i < rest.len() ==> #[trigger] rest[i] == steps[i + 1]);
    }
}

/// Behind its transition a step has the number of its outputs, which is not zero, the index of the next one, all
/// outputs but that, and its fee of eight bytes, which the encodings of version one lack.
pub proof fn law_step_ends_behind_its_outputs(bytes: Seq<u8>, at: int, step: Option<TweakedStep>, outputs: int, end: int)
    requires
        transition_at(bytes, at) == Some((step, outputs)),
        0 <= outputs && outputs + 2 <= bytes.len(),
        bytes[outputs] > 0 ==> outputs_end(bytes, outputs + 2, (bytes[outputs] - 1) as nat) == Some(end),
    ensures
        bytes[outputs] == 0 ==> step_at(bytes, at, true) is None && step_at(bytes, at, false) is None,
        bytes[outputs] > 0 ==> step_at(bytes, at, false) == Some((step, end)),
        bytes[outputs] > 0 && end + 8 <= bytes.len() ==> step_at(bytes, at, true) == Some((step, end + 8)),
        bytes[outputs] > 0 && end + 8 > bytes.len() ==> step_at(bytes, at, true) is None,
{
}

/// The steps stand behind 85 bytes: the version in two, the amount in eight, the expiry in four, the server's key
/// in 33, the exit delay in two, and the anchor in 36; a byte or more then tell their number.
pub proof fn law_steps_stand_behind_the_head(bytes: Seq<u8>)
    ensures
        bytes.len() < 2 + 8 + 4 + 33 + 2 + 36 + 1 ==> !tweaks_taken(bytes),
        bytes.len() >= 86 && bytes[85] < 0xfd ==> (tweaks_taken(bytes) <==> is_public_key(bytes.subrange(14, 47))
            && tweaks_taken_from(
            bytes,
            86,
            bytes[85] as nat,
            !(bytes[0] == 1 && bytes[1] == 0),
            bytes.subrange(14, 47),
        )),
{
    reveal_with_fuel(little, 3);
}

} // verus!
