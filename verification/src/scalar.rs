//! Numbers below the order of the curve, as 32 bytes with the most significant first.

use vstd::arithmetic::power::pow;
use vstd::prelude::*;

verus! {

/// The order of the group that keys and signatures live in.
#[verifier::opaque]
pub open spec fn curve_order() -> nat {
    0xfffffffffffffffffffffffffffffffebaaedce6af48a03bbfd25e8cd0364141nat
}

/// The number that bytes write, most significant byte first.
pub open spec fn number(bytes: Seq<u8>) -> nat
    decreases bytes.len(),
{
    if bytes.len() == 0 {
        0
    } else {
        number(bytes.drop_last()) * 256 + bytes.last() as nat
    }
}

/// The `len` bytes that write a number, most significant byte first.
pub open spec fn written(value: nat, len: nat) -> Seq<u8>
    decreases len,
{
    if len == 0 {
        Seq::empty()
    } else {
        written(value / 256, (len - 1) as nat).push((value % 256) as u8)
    }
}

/// Whether 32 bytes write a secret key: a number from one to the order of the curve, excluded.
pub open spec fn is_secret(bytes: Seq<u8>) -> bool {
    bytes.len() == 32 && 0 < number(bytes) < curve_order()
}

/// The 32 bytes of a number modulo the order of the curve.
pub open spec fn scalar(value: int) -> Seq<u8> {
    written((value % curve_order() as int) as nat, 32)
}

/// Written bytes are as many as asked for.
pub proof fn lemma_written_len(value: nat, len: nat)
    ensures
        written(value, len).len() == len,
    decreases len,
{
    if len > 0 {
        lemma_written_len(value / 256, (len - 1) as nat);
    }
}

/// Bytes that are all zero write zero.
pub proof fn lemma_zero_number(bytes: Seq<u8>)
    requires
        forall|i: int| 0 <= i < bytes.len() ==> bytes[i] == 0,
    ensures
        number(bytes) == 0,
    decreases bytes.len(),
{
    if bytes.len() > 0 {
        lemma_zero_number(bytes.drop_last());
    }
}

/// Bytes write a number that their count can hold.
pub proof fn lemma_number_bound(bytes: Seq<u8>)
    ensures
        number(bytes) < pow(256, bytes.len()),
    decreases bytes.len(),
{
    reveal(pow);
    if bytes.len() > 0 {
        lemma_number_bound(bytes.drop_last());
    }
}

/// Writing the number of some bytes gives the bytes back.
pub proof fn lemma_write_number(bytes: Seq<u8>)
    ensures
        written(number(bytes), bytes.len()) == bytes,
    decreases bytes.len(),
{
    if bytes.len() > 0 {
        let rest = bytes.drop_last();
        lemma_write_number(rest);
        let value = number(bytes);
        assert(value / 256 == number(rest) && value % 256 == bytes.last() as nat);
        assert(written(value, bytes.len()) == rest.push(bytes.last()));
        assert(rest.push(bytes.last()) =~= bytes);
    } else {
        assert(written(number(bytes), bytes.len()) =~= bytes);
    }
}

/// Reading the bytes of a number gives the number back.
pub proof fn lemma_number_written(value: nat, len: nat)
    requires
        value < pow(256, len),
    ensures
        number(written(value, len)) == value,
    decreases len,
{
    reveal(pow);
    if len > 0 {
        let rest = written(value / 256, (len - 1) as nat);
        assert(pow(256, len) == 256 * pow(256, (len - 1) as nat));
        assert(value / 256 < pow(256, (len - 1) as nat));
        lemma_number_written(value / 256, (len - 1) as nat);
        let all = rest.push((value % 256) as u8);
        assert(all.drop_last() =~= rest);
    }
}

/// Thirty-two bytes hold every number up to the order of the curve.
pub proof fn lemma_order_fits()
    ensures
        2 * curve_order() > pow(256, 32) > curve_order() > 1,
{
    reveal(curve_order);
    assert(2 * curve_order() > pow(256, 32) > curve_order()) by {
        reveal(pow);
        reveal_with_fuel(pow, 33);
    }
}

/// A secret key is the scalar of its number.
pub proof fn lemma_secret_is_scalar(bytes: Seq<u8>)
    requires
        is_secret(bytes),
    ensures
        scalar(number(bytes) as int) == bytes,
{
    lemma_write_number(bytes);
    vstd::arithmetic::div_mod::lemma_small_mod(number(bytes), curve_order());
}

/// The number of a scalar is the value it was made of, modulo the order of the curve.
pub proof fn lemma_scalar_number(value: int)
    ensures
        number(scalar(value)) == value % curve_order() as int,
        scalar(value).len() == 32,
{
    lemma_order_fits();
    lemma_number_written((value % curve_order() as int) as nat, 32);
    lemma_written_len((value % curve_order() as int) as nat, 32);
}

/// The number of a prefix and one byte more.
proof fn lemma_number_step(bytes: Seq<u8>, i: int)
    requires
        0 <= i < bytes.len(),
    ensures
        number(bytes.take(i + 1)) == number(bytes.take(i)) * 256 + bytes[i],
{
    assert(bytes.take(i + 1).drop_last() =~= bytes.take(i));
}

/// The order of the curve, byte by byte.
pub fn curve_order_bytes() -> (bytes: [u8; 32])
    ensures
        number(bytes@) == curve_order(),
{
    let bytes: [u8; 32] = [
        0xff, 0xff, 0xff, 0xff, 0xff, 0xff, 0xff, 0xff, 0xff, 0xff, 0xff, 0xff, 0xff, 0xff, 0xff, 0xfe,
        0xba, 0xae, 0xdc, 0xe6, 0xaf, 0x48, 0xa0, 0x3b, 0xbf, 0xd2, 0x5e, 0x8c, 0xd0, 0x36, 0x41, 0x41,
    ];
    proof {
        reveal(curve_order);
        let all = bytes@;
        assert(number(all.take(0)) == 0);
        lemma_number_step(all, 0);
        lemma_number_step(all, 1);
        lemma_number_step(all, 2);
        lemma_number_step(all, 3);
        lemma_number_step(all, 4);
        lemma_number_step(all, 5);
        lemma_number_step(all, 6);
        lemma_number_step(all, 7);
        lemma_number_step(all, 8);
        lemma_number_step(all, 9);
        lemma_number_step(all, 10);
        lemma_number_step(all, 11);
        lemma_number_step(all, 12);
        lemma_number_step(all, 13);
        lemma_number_step(all, 14);
        lemma_number_step(all, 15);
        lemma_number_step(all, 16);
        lemma_number_step(all, 17);
        lemma_number_step(all, 18);
        lemma_number_step(all, 19);
        lemma_number_step(all, 20);
        lemma_number_step(all, 21);
        lemma_number_step(all, 22);
        lemma_number_step(all, 23);
        lemma_number_step(all, 24);
        lemma_number_step(all, 25);
        lemma_number_step(all, 26);
        lemma_number_step(all, 27);
        lemma_number_step(all, 28);
        lemma_number_step(all, 29);
        lemma_number_step(all, 30);
        lemma_number_step(all, 31);
        assert(all.take(32) =~= all);
    }
    bytes
}

/// The number of a suffix: `number(bytes) = number(prefix) * 256^len(suffix) + number(suffix)`.
proof fn lemma_number_split(bytes: Seq<u8>, i: int)
    requires
        0 <= i <= bytes.len(),
    ensures
        number(bytes) == number(bytes.take(i)) * pow(256, (bytes.len() - i) as nat) + number(bytes.skip(i)),
    decreases bytes.len() - i,
{
    reveal(pow);
    if i == bytes.len() {
        assert(bytes.take(i) =~= bytes);
        assert(bytes.skip(i) =~= Seq::<u8>::empty());
    } else {
        let rest = bytes.drop_last();
        lemma_number_split(rest, i);
        assert(rest.take(i) =~= bytes.take(i));
        assert(bytes.skip(i).drop_last() =~= rest.skip(i));
        assert(bytes.skip(i).last() == bytes.last());
        let a = number(bytes.take(i)) as int;
        let p = pow(256, (rest.len() - i) as nat);
        assert(pow(256, (bytes.len() - i) as nat) == 256 * p);
        assert((a * p) * 256 == a * (256 * p)) by (nonlinear_arith);
    }
}

/// The number of a byte and what follows it.
proof fn lemma_number_front(bytes: Seq<u8>)
    requires
        bytes.len() > 0,
    ensures
        number(bytes) == bytes[0] * pow(256, (bytes.len() - 1) as nat) + number(bytes.skip(1)),
{
    lemma_number_split(bytes, 1);
    lemma_number_step(bytes, 0);
    assert(number(bytes.take(0)) == 0);
}

/// Whether one number of 32 bytes is below another.
pub fn below(a: &[u8; 32], b: &[u8; 32]) -> (less: bool)
    ensures
        less == (number(a@) < number(b@)),
{
    let mut i: usize = 0;
    assert(a@.skip(0) =~= a@ && b@.skip(0) =~= b@);
    while i < 32
        invariant
            i <= 32,
            (number(a@) < number(b@)) == (number(a@.skip(i as int)) < number(b@.skip(i as int))),
        decreases 32 - i,
    {
        proof {
            let x = a@.skip(i as int);
            let y = b@.skip(i as int);
            lemma_number_front(x);
            lemma_number_front(y);
            lemma_number_bound(x.skip(1));
            lemma_number_bound(y.skip(1));
            assert(x.skip(1) =~= a@.skip(i + 1));
            assert(y.skip(1) =~= b@.skip(i + 1));
            let p = pow(256, (x.len() - 1) as nat);
            let (u, v) = (x[0] as int, y[0] as int);
            if u < v {
                assert(v * p >= u * p + p) by (nonlinear_arith)
                    requires
                        v >= u + 1,
                        p >= 0,
                ;
            } else if v < u {
                assert(u * p >= v * p + p) by (nonlinear_arith)
                    requires
                        u >= v + 1,
                        p >= 0,
                ;
            }
        }
        if a[i] < b[i] {
            return true;
        }
        if b[i] < a[i] {
            return false;
        }
        i += 1;
    }
    assert(a@.skip(32) =~= b@.skip(32));
    false
}

/// One number of 32 bytes less another that is not larger.
pub fn minus(a: &[u8; 32], b: &[u8; 32]) -> (difference: [u8; 32])
    requires
        number(b@) <= number(a@),
    ensures
        number(difference@) == number(a@) - number(b@),
{
    let mut difference = [0u8; 32];
    let mut borrow: u8 = 0;
    let mut i: usize = 32;
    proof {
        reveal(pow);
        assert(a@.skip(32) =~= Seq::<u8>::empty() && b@.skip(32) =~= Seq::<u8>::empty() && difference@.skip(32)
            =~= Seq::<u8>::empty());
    }
    while i > 0
        invariant
            i <= 32,
            borrow <= 1,
            number(difference@.skip(i as int)) + number(b@.skip(i as int)) == number(a@.skip(i as int)) + borrow * pow(
                256,
                (32 - i) as nat,
            ),
        decreases i,
    {
        let ghost before = difference@;
        let ghost held = borrow as int;
        i -= 1;
        let take: u16 = b[i] as u16 + borrow as u16;
        if a[i] as u16 >= take {
            difference[i] = (a[i] as u16 - take) as u8;
            borrow = 0;
        } else {
            difference[i] = (a[i] as u16 + 256 - take) as u8;
            borrow = 1;
        }
        proof {
            let (x, y, z) = (a@.skip(i as int), b@.skip(i as int), difference@.skip(i as int));
            lemma_number_front(x);
            lemma_number_front(y);
            lemma_number_front(z);
            assert(x.skip(1) =~= a@.skip(i + 1));
            assert(y.skip(1) =~= b@.skip(i + 1));
            assert(z.skip(1) =~= before.skip(i + 1));
            let p = pow(256, (31 - i) as nat);
            assert(pow(256, (32 - i) as nat) == 256 * p) by {
                reveal(pow);
            }
            let (u, v, w, k) = (x[0] as int, y[0] as int, z[0] as int, borrow as int);
            assert(w + v + held == u + k * 256);
            assert(w * p + v * p + held * p == u * p + k * (256 * p)) by (nonlinear_arith)
                requires
                    w + v + held == u + k * 256,
            ;
        }
    }
    proof {
        assert(a@.skip(0) =~= a@ && b@.skip(0) =~= b@ && difference@.skip(0) =~= difference@);
        lemma_number_bound(difference@);
        let p = pow(256, 32);
        assert(borrow == 0) by {
            if borrow == 1 {
                assert(borrow * p == p);
            }
        }
        assert(borrow * p == 0);
    }
    difference
}

/// A 32-byte number modulo the order of the curve.
pub fn reduced(value: &[u8; 32]) -> (rest: [u8; 32])
    ensures
        rest@ == scalar(number(value@) as int),
        number(rest@) < curve_order(),
{
    let order = curve_order_bytes();
    proof {
        lemma_order_fits();
        lemma_number_bound(value@);
        lemma_scalar_number(number(value@) as int);
    }
    if below(value, &order) {
        proof {
            vstd::arithmetic::div_mod::lemma_small_mod(number(value@), curve_order());
            lemma_write_number(value@);
        }
        *value
    } else {
        let rest = minus(value, &order);
        proof {
            vstd::arithmetic::div_mod::lemma_fundamental_div_mod_converse(
                number(value@) as int,
                curve_order() as int,
                1,
                number(rest@) as int,
            );
            lemma_write_number(rest@);
        }
        rest
    }
}

} // verus!
