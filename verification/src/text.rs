//! Texts: decimal numbers and JSON strings.

use vstd::prelude::*;

verus! {

/// The decimal digits of a number.
pub open spec fn decimal(value: nat) -> Seq<char>
    decreases value,
{
    if value < 10 {
        seq![(48 + value) as char]
    } else {
        decimal(value / 10).push((48 + value % 10) as char)
    }
}

/// Whether a character is a decimal digit.
pub open spec fn is_digit(c: char) -> bool {
    '0' <= c <= '9'
}

/// The digit of a number below ten.
fn digit(value: u64) -> (found: &'static str)
    requires
        value < 10,
    ensures
        found@ == seq![(48 + value) as char],
{
    proof {
        reveal_strlit("0");
        reveal_strlit("1");
        reveal_strlit("2");
        reveal_strlit("3");
        reveal_strlit("4");
        reveal_strlit("5");
        reveal_strlit("6");
        reveal_strlit("7");
        reveal_strlit("8");
        reveal_strlit("9");
    }
    let found = if value == 0 {
        "0"
    } else if value == 1 {
        "1"
    } else if value == 2 {
        "2"
    } else if value == 3 {
        "3"
    } else if value == 4 {
        "4"
    } else if value == 5 {
        "5"
    } else if value == 6 {
        "6"
    } else if value == 7 {
        "7"
    } else if value == 8 {
        "8"
    } else {
        "9"
    };
    assert(found@ =~= seq![(48 + value) as char]);
    found
}

/// Appends the decimal digits of a number.
pub fn push_decimal(text: &mut String, value: u64)
    ensures
        final(text)@ == old(text)@ + decimal(value as nat),
    decreases value,
{
    if value >= 10 {
        push_decimal(text, value / 10);
    }
    text.append(digit(value % 10));
    assert(text@ =~= old(text)@ + decimal(value as nat));
}

/// Decimal digits are digits, and there is at least one.
pub proof fn lemma_decimal_digits(value: nat)
    ensures
        decimal(value).len() > 0,
        forall|i: int| 0 <= i < decimal(value).len() ==> is_digit(#[trigger] decimal(value)[i]),
    decreases value,
{
    if value >= 10 {
        lemma_decimal_digits(value / 10);
    }
}

/// Different numbers have different digits.
pub proof fn lemma_decimal_injective(a: nat, b: nat)
    requires
        decimal(a) == decimal(b),
    ensures
        a == b,
    decreases a,
{
    lemma_decimal_digits(a / 10);
    lemma_decimal_digits(b / 10);
    let last = decimal(a).last();
    assert(last == (48 + a % 10) as char);
    assert(decimal(b).last() == (48 + b % 10) as char);
    if a >= 10 && b >= 10 {
        assert(decimal(a).drop_last() =~= decimal(a / 10));
        assert(decimal(b).drop_last() =~= decimal(b / 10));
        lemma_decimal_injective(a / 10, b / 10);
    }
}

/// Digits that end before something that is no digit are told apart from what follows.
pub proof fn lemma_decimal_prefix(a: nat, b: nat, x: Seq<char>, y: Seq<char>)
    requires
        decimal(a) + x == decimal(b) + y,
        x.len() > 0 && !is_digit(x[0]),
        y.len() > 0 && !is_digit(y[0]),
    ensures
        a == b,
        x == y,
{
    lemma_decimal_digits(a);
    lemma_decimal_digits(b);
    let (p, q) = (decimal(a), decimal(b));
    let all = p + x;
    if p.len() < q.len() {
        assert(all[p.len() as int] == x[0]);
        assert((q + y)[p.len() as int] == q[p.len() as int]);
    } else if q.len() < p.len() {
        assert(all[q.len() as int] == p[q.len() as int]);
        assert((q + y)[q.len() as int] == y[0]);
    }
    assert(p =~= q) by {
        assert forall|i: int| 0 <= i < p.len() implies p[i] == q[i] by {
            assert(all[i] == p[i] && (q + y)[i] == q[i]);
        }
    }
    lemma_decimal_injective(a, b);
    assert(x =~= all.skip(p.len() as int));
    assert(y =~= (q + y).skip(q.len() as int));
}

} // verus!
