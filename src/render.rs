//! Text renderings of numbers and raw byte buffers.

use vstd::prelude::*;
use vstd::string::*;

verus! {

/// The character of digit `d` in bases up to sixteen, lower case.
pub open spec fn digit_char(d: int) -> char {
    seq!['0', '1', '2', '3', '4', '5', '6', '7', '8', '9', 'a', 'b', 'c', 'd', 'e', 'f'][d]
}

/// The digits of `n` in base `base`, most significant first, with no leading zeros.
pub open spec fn digits(n: nat, base: nat) -> Seq<char>
    recommends
        2 <= base <= 16,
    decreases n,
    via digits_decreases
{
    if base < 2 || n < base {
        seq![digit_char(n as int)]
    } else {
        digits(n / base, base).push(digit_char((n % base) as int))
    }
}

#[via_fn]
proof fn digits_decreases(n: nat, base: nat) {
    if !(base < 2 || n < base) {
        assert(n / base < n) by (nonlinear_arith)
            requires
                n >= base,
                base >= 2,
        ;
    }
}

/// Lower-case hexadecimal of `n`.
pub open spec fn hex_text(n: nat) -> Seq<char> {
    digits(n, 16)
}

/// Decimal of `n`.
pub open spec fn decimal_text(n: nat) -> Seq<char> {
    digits(n, 10)
}

/// The decimals of the bytes, separated by a comma and a space.
pub open spec fn byte_items(b: Seq<u8>) -> Seq<char>
    decreases b.len(),
{
    if b.len() == 0 {
        seq![]
    } else if b.len() == 1 {
        decimal_text(b[0] as nat)
    } else {
        byte_items(b.drop_last()) + seq![',', ' '] + decimal_text(b.last() as nat)
    }
}

/// A byte buffer written as a bracketed list of decimals: `[255, 254, 0, 65]`.
pub open spec fn byte_list_text(b: Seq<u8>) -> Seq<char> {
    seq!['['] + byte_items(b) + seq![']']
}

fn digit_str(d: u32) -> (r: &'static str)
    requires
        d < 16,
    ensures
        r@ == seq![digit_char(d as int)],
{
    proof {
        reveal_strlit("0");
        reveal_strlit("1");
        reveal_strlit("2");
        reveal_strlit("3");
        reveal_strlit("4");
        reveal_strlit("5");
        reveal_strlit("6");
        reveal_strlit("7");
        reveal_strlit("8");
        reveal_strlit("9");
        reveal_strlit("a");
        reveal_strlit("b");
        reveal_strlit("c");
        reveal_strlit("d");
        reveal_strlit("e");
        reveal_strlit("f");
    }
    let r = match d {
        0 => "0",
        1 => "1",
        2 => "2",
        3 => "3",
        4 => "4",
        5 => "5",
        6 => "6",
        7 => "7",
        8 => "8",
        9 => "9",
        10 => "a",
        11 => "b",
        12 => "c",
        13 => "d",
        14 => "e",
        _ => "f",
    };
    assert(r@ =~= seq![digit_char(d as int)]);
    r
}

/// Appends the digits of `n` in base `base` to `s`.
pub fn push_digits(s: &mut String, n: u32, base: u32)
    requires
        2 <= base <= 16,
    ensures
        final(s)@ == old(s)@ + digits(n as nat, base as nat),
    decreases n,
{
    let ghost start = s@;
    if n >= base {
        assert(n / base < n) by (nonlinear_arith)
            requires
                n >= base,
                base >= 2,
        ;
        push_digits(s, n / base, base);
        assert(digits(n as nat, base as nat) == digits((n / base) as nat, base as nat).push(
            digit_char((n % base) as int),
        ));
    } else {
        assert(n % base == n) by (nonlinear_arith)
            requires
                n < base,
        ;
        assert(digits(n as nat, base as nat) == seq![digit_char((n % base) as int)]);
    }
    s.append(digit_str(n % base));
    assert(s@ =~= start + digits(n as nat, base as nat));
}

/// The bytes written as a bracketed, comma-separated list of decimals.
pub fn byte_list(b: &[u8]) -> (r: String)
    ensures
        r@ == byte_list_text(b@),
{
    let mut s = String::from_str("[");
    proof {
        reveal_strlit("[");
        reveal_strlit("]");
        reveal_strlit(", ");
        assert(b@.subrange(0, 0) =~= Seq::<u8>::empty());
    }
    let mut i: usize = 0;
    while i < b.len()
        invariant
            i <= b@.len(),
            s@ == seq!['['] + byte_items(b@.subrange(0, i as int)),
        decreases b@.len() - i,
    {
        let ghost pre = b@.subrange(0, i as int);
        let ghost next = b@.subrange(0, i as int + 1);
        assert(next.drop_last() =~= pre);
        assert(next.last() == b@[i as int]);
        assert(next.len() == i + 1);
        proof {
            reveal_strlit(", ");
        }
        if i > 0 {
            s.append(", ");
        }
        push_digits(&mut s, b[i] as u32, 10);
        if i == 0 {
            assert(byte_items(next) == decimal_text(b@[0] as nat));
        } else {
            assert(byte_items(next) == byte_items(pre) + seq![',', ' '] + decimal_text(b@[i as int] as nat));
        }
        i = i + 1;
        assert(s@ =~= seq!['['] + byte_items(next));
    }
    assert(b@.subrange(0, b@.len() as int) =~= b@);
    s.append("]");
    assert(s@ =~= byte_list_text(b@));
    s
}

} // verus!
