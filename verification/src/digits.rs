//! Positional numerals (decimal and lowercase hexadecimal) of unsigned integers.

use vstd::prelude::*;

verus! {

/// The character that writes the digit `d` (`0`-`9`, then `a`-`f`).
pub open spec fn digit_char(d: nat) -> char {
    if d < 10 {
        (48 + d) as char
    } else {
        (87 + d) as char
    }
}

/// The value of a digit character, the inverse of `digit_char` on `0..16`.
pub open spec fn digit_value(c: char) -> nat {
    if '0' <= c && c <= '9' {
        (c as nat - 48) as nat
    } else {
        (c as nat - 87) as nat
    }
}

/// The numeral of `n` in `base`: most significant digit first, no leading zero,
/// and the single digit `0` for zero.
pub open spec fn numeral(n: nat, base: nat) -> Seq<char>
    recommends
        2 <= base <= 16,
    decreases n,
{
    if base < 2 || n < base {
        seq![digit_char((n % 16) as nat)]
    } else {
        proof {
            assert(n / base < n) by (nonlinear_arith)
                requires
                    n >= base,
                    base >= 2,
            ;
        }
        numeral(n / base, base).push(digit_char(n % base))
    }
}

/// The number that a numeral in `base` denotes.
pub open spec fn numeral_value(s: Seq<char>, base: nat) -> nat
    decreases s.len(),
{
    if s.len() == 0 {
        0
    } else {
        numeral_value(s.drop_last(), base) * base + digit_value(s.last())
    }
}

/// Writes the digit `d` below sixteen as a character.
pub fn digit_to_char(d: u64) -> (c: char)
    requires
        d < 16,
    ensures
        c == digit_char(d as nat),
{
    let small: u8 = d as u8;
    if small < 10 {
        (48u8 + small) as char
    } else {
        (87u8 + small) as char
    }
}

/// The numeral of `n` in `base`, as `numeral` defines it.
pub fn numeral_of(n: u64, base: u64) -> (r: Vec<char>)
    requires
        2 <= base <= 16,
    ensures
        r@ == numeral(n as nat, base as nat),
    decreases n,
{
    if n < base {
        let mut v: Vec<char> = Vec::new();
        v.push(digit_to_char(n));
        v
    } else {
        assert(n / base < n) by (nonlinear_arith)
            requires
                n >= base,
                base >= 2,
        ;
        let mut v = numeral_of(n / base, base);
        v.push(digit_to_char(n % base));
        v
    }
}

/// Reading back a digit that `digit_char` wrote gives the digit.
pub proof fn lemma_digit_round_trip(d: nat)
    requires
        d < 16,
    ensures
        digit_value(digit_char(d)) == d,
        d < 10 ==> '0' <= digit_char(d) <= '9',
        d >= 10 ==> 'a' <= digit_char(d) <= 'f',
{
}

/// A numeral reads back as the number it was written for.
pub proof fn lemma_numeral_round_trip(n: nat, base: nat)
    requires
        2 <= base <= 16,
    ensures
        numeral_value(numeral(n, base), base) == n,
    decreases n,
{
    if n < base {
        lemma_digit_round_trip(n);
        let s = numeral(n, base);
        assert(n % 16 == n);
        assert(s =~= seq![digit_char(n)]);
        assert(s.drop_last() =~= Seq::<char>::empty());
        assert(numeral_value(s.drop_last(), base) == 0);
    } else {
        assert(n / base < n) by (nonlinear_arith)
            requires
                n >= base,
                base >= 2,
        ;
        lemma_numeral_round_trip(n / base, base);
        lemma_digit_round_trip(n % base);
        let s = numeral(n, base);
        assert(s =~= numeral(n / base, base).push(digit_char(n % base)));
        assert(s.drop_last() =~= numeral(n / base, base));
        assert(s.last() == digit_char(n % base));
        assert((n / base) * base + n % base == n) by (nonlinear_arith)
            requires
                base >= 2,
        ;
    }
}

} // verus!
