//! Byte strings: comparison and fixed-size copies.

use vstd::prelude::*;

verus! {

/// Whether two byte slices hold the same bytes.
pub fn bytes_eq(a: &[u8], b: &[u8]) -> (same: bool)
    ensures
        same == (a@ == b@),
{
    if a.len() != b.len() {
        return false;
    }
    let mut i: usize = 0;
    while i < a.len()
        invariant
            i <= a.len(),
            a.len() == b.len(),
            forall|k: int| 0 <= k < i ==> a[k] == b[k],
        decreases a.len() - i,
    {
        if a[i] != b[i] {
            return false;
        }
        i += 1;
    }
    assert(a@ =~= b@);
    true
}

/// The views of a list of byte strings.
pub open spec fn byte_views(items: Seq<Vec<u8>>) -> Seq<Seq<u8>> {
    items.map_values(|item: Vec<u8>| item@)
}

/// The views of a list of texts.
pub open spec fn text_views(items: Seq<String>) -> Seq<Seq<char>> {
    items.map_values(|item: String| item@)
}

/// The view of an optional text.
pub open spec fn text_view(item: Option<String>) -> Option<Seq<char>> {
    match item {
        Some(text) => Some(text@),
        None => None,
    }
}

/// Whether two lists of byte strings are equal.
pub fn byte_lists_eq(a: &Vec<Vec<u8>>, b: &Vec<Vec<u8>>) -> (same: bool)
    ensures
        same == (byte_views(a@) == byte_views(b@)),
{
    if a.len() != b.len() {
        assert(byte_views(a@).len() != byte_views(b@).len());
        return false;
    }
    let mut i: usize = 0;
    while i < a.len()
        invariant
            i <= a.len(),
            a.len() == b.len(),
            forall|k: int| 0 <= k < i ==> byte_views(a@)[k] == byte_views(b@)[k],
        decreases a.len() - i,
    {
        if !bytes_eq(a[i].as_slice(), b[i].as_slice()) {
            assert(byte_views(a@)[i as int] != byte_views(b@)[i as int]);
            return false;
        }
        i += 1;
    }
    assert(byte_views(a@) =~= byte_views(b@));
    true
}

/// A copy of a list of byte strings.
pub fn byte_list_copy(items: &Vec<Vec<u8>>) -> (copy: Vec<Vec<u8>>)
    ensures
        byte_views(copy@) == byte_views(items@),
{
    let mut copy: Vec<Vec<u8>> = Vec::new();
    let mut i: usize = 0;
    while i < items.len()
        invariant
            i <= items.len(),
            copy.len() == i,
            forall|k: int| 0 <= k < i ==> copy[k]@ == items[k]@,
        decreases items.len() - i,
    {
        copy.push(items[i].clone());
        i += 1;
    }
    assert(byte_views(copy@) =~= byte_views(items@));
    copy
}

/// Whether two lists of texts are equal.
pub fn text_lists_eq(a: &Vec<String>, b: &Vec<String>) -> (same: bool)
    ensures
        same == (text_views(a@) == text_views(b@)),
{
    if a.len() != b.len() {
        assert(text_views(a@).len() != text_views(b@).len());
        return false;
    }
    let mut i: usize = 0;
    while i < a.len()
        invariant
            i <= a.len(),
            a.len() == b.len(),
            forall|k: int| 0 <= k < i ==> text_views(a@)[k] == text_views(b@)[k],
        decreases a.len() - i,
    {
        if !(a[i] == b[i]) {
            assert(text_views(a@)[i as int] != text_views(b@)[i as int]);
            return false;
        }
        i += 1;
    }
    assert(text_views(a@) =~= text_views(b@));
    true
}

/// A copy of a list of texts.
pub fn text_list_copy(items: &Vec<String>) -> (copy: Vec<String>)
    ensures
        text_views(copy@) == text_views(items@),
{
    let mut copy: Vec<String> = Vec::new();
    let mut i: usize = 0;
    while i < items.len()
        invariant
            i <= items.len(),
            copy.len() == i,
            forall|k: int| 0 <= k < i ==> copy[k]@ == items[k]@,
        decreases items.len() - i,
    {
        copy.push(items[i].clone());
        i += 1;
    }
    assert(text_views(copy@) =~= text_views(items@));
    copy
}

/// The first 32 bytes of a slice that holds exactly 32.
pub fn array32(bytes: &[u8]) -> (array: [u8; 32])
    requires
        bytes@.len() == 32,
    ensures
        array@ == bytes@,
{
    let mut array = [0u8; 32];
    let mut i: usize = 0;
    while i < 32
        invariant
            i <= 32,
            bytes@.len() == 32,
            array@.len() == 32,
            forall|k: int| 0 <= k < i ==> array[k] == bytes[k],
        decreases 32 - i,
    {
        array[i] = bytes[i];
        i += 1;
    }
    assert(array@ =~= bytes@);
    array
}

/// The first 33 bytes of a slice that holds exactly 33.
pub fn array33(bytes: &[u8]) -> (array: [u8; 33])
    requires
        bytes@.len() == 33,
    ensures
        array@ == bytes@,
{
    let mut array = [0u8; 33];
    let mut i: usize = 0;
    while i < 33
        invariant
            i <= 33,
            bytes@.len() == 33,
            array@.len() == 33,
            forall|k: int| 0 <= k < i ==> array[k] == bytes[k],
        decreases 33 - i,
    {
        array[i] = bytes[i];
        i += 1;
    }
    assert(array@ =~= bytes@);
    array
}

} // verus!
